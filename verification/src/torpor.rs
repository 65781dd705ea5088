use vstd::prelude::*;
use crate::text::{int_text, push_int_text};

verus! {

/// Time spent in torpor, as an interval of months and days.
#[derive(Debug, Clone, Copy, PartialEq, Eq, Structural)]
pub struct Torpor {
    pub months: i32,
    pub days: i32,
}

/// The pieces joined by `sep`.
pub open spec fn join_with(parts: Seq<Seq<char>>, sep: Seq<char>) -> Seq<char>
    decreases parts.len(),
{
    if parts.len() == 0 {
        seq![]
    } else if parts.len() == 1 {
        parts[0]
    } else {
        join_with(parts.drop_last(), sep) + sep + parts.last()
    }
}

/// The non-zero parts of a torpor time in Swedish: whole years, the months
/// beyond them, and days. A part whose value is zero or less is left out.
pub open spec fn torpor_parts(t: Torpor) -> Seq<Seq<char>> {
    let years = if t.months >= 12 { seq![int_text((t.months / 12) as int) + " år"@] } else { seq![] };
    let months = if t.months >= 0 && t.months % 12 > 0 {
        seq![int_text((t.months % 12) as int) + " månader"@]
    } else {
        seq![]
    };
    let days = if t.days > 0 { seq![int_text(t.days as int) + " dagar"@] } else { seq![] };
    years + months + days
}

/// How a torpor time is shown: its parts separated by commas, or "0 dagar"
/// when there are none.
pub open spec fn torpor_text(t: Torpor) -> Seq<char> {
    if torpor_parts(t).len() == 0 {
        "0 dagar"@
    } else {
        join_with(torpor_parts(t), ", "@)
    }
}

fn push_part(out: &mut String, parts: Ghost<Seq<Seq<char>>>, first: bool, value: i32, unit: &str) -> (r: Ghost<Seq<Seq<char>>>)
    requires
        old(out)@ == join_with(parts@, ", "@),
        first == (parts@.len() == 0),
    ensures
        r@ == parts@.push(int_text(value as int) + unit@),
        final(out)@ == join_with(r@, ", "@),
{
    let ghost piece = int_text(value as int) + unit@;
    if !first {
        out.append(", ");
    }
    push_int_text(out, value as i64);
    out.append(unit);
    let ghost next = parts@.push(piece);
    assert(next.drop_last() =~= parts@);
    if first {
        assert(join_with(next, ", "@) == piece);
    }
    assert(final(out)@ =~= join_with(next, ", "@));
    Ghost(next)
}

/// Shows a torpor time in years, months and days, leaving out zero parts.
pub fn fmt_torpor(t: &Torpor) -> (r: String)
    ensures
        r@ == torpor_text(*t),
{
    let mut out = String::new();
    let ghost mut parts: Seq<Seq<char>> = seq![];
    let mut empty = true;
    if t.months >= 12 {
        let g = push_part(&mut out, Ghost(parts), empty, t.months / 12, " år");
        proof {
            parts = g@;
        }
        empty = false;
    }
    if t.months >= 0 && t.months % 12 > 0 {
        let g = push_part(&mut out, Ghost(parts), empty, t.months % 12, " månader");
        proof {
            parts = g@;
        }
        empty = false;
    }
    if t.days > 0 {
        let g = push_part(&mut out, Ghost(parts), empty, t.days, " dagar");
        proof {
            parts = g@;
        }
        empty = false;
    }
    assert(parts =~= torpor_parts(*t));
    if empty {
        "0 dagar".to_owned()
    } else {
        out
    }
}

/// The months of a torpor time entered as years and months (each missing
/// one counts as zero), with the wrap-around of 32-bit arithmetic.
pub open spec fn torpor_months_of(years: Option<i32>, months: Option<i32>) -> i32 {
    let y: i32 = match years { Some(y) => y, None => 0 };
    let m: i32 = match months { Some(m) => m, None => 0 };
    y.wrapping_mul(12).wrapping_add(m)
}

/// The torpor time entered in a form as years, months and days.
pub fn torpor_from_form(years: Option<i32>, months: Option<i32>, days: Option<i32>) -> (r: Torpor)
    ensures
        r.months == torpor_months_of(years, months),
        r.days == (match days { Some(d) => d, None => 0i32 }),
{
    let y: i32 = match years { Some(y) => y, None => 0 };
    let m: i32 = match months { Some(m) => m, None => 0 };
    let d: i32 = match days { Some(d) => d, None => 0 };
    Torpor { months: y.wrapping_mul(12).wrapping_add(m), days: d }
}

} // verus!

verus! {

// ---------------------------------------------------------------------------
// What the torpor text shows
// ---------------------------------------------------------------------------

/// `piece` stands in `text` at position `i`.
pub open spec fn stands_at(text: Seq<char>, piece: Seq<char>, i: int) -> bool {
    &&& 0 <= i
    &&& i + piece.len() <= text.len()
    &&& text.subrange(i, i + piece.len()) == piece
}

proof fn lemma_join_starts_with_first(parts: Seq<Seq<char>>, sep: Seq<char>)
    requires
        parts.len() > 0,
    ensures
        stands_at(join_with(parts, sep), parts[0], 0),
    decreases parts.len(),
{
    if parts.len() > 1 {
        let front = parts.drop_last();
        lemma_join_starts_with_first(front, sep);
        let j = join_with(front, sep);
        assert(join_with(parts, sep) == j + sep + parts.last());
        assert(front[0] == parts[0]);
        assert((j + sep + parts.last()).subrange(0, parts[0].len() as int) =~= j.subrange(0, parts[0].len() as int));
    } else {
        assert(join_with(parts, sep).subrange(0, parts[0].len() as int) =~= parts[0]);
    }
}

proof fn lemma_join_ends_with_last(parts: Seq<Seq<char>>, sep: Seq<char>)
    requires
        parts.len() > 0,
    ensures
        stands_at(join_with(parts, sep), parts.last(), join_with(parts, sep).len() - parts.last().len()),
{
    let t = join_with(parts, sep);
    if parts.len() > 1 {
        let j = join_with(parts.drop_last(), sep);
        assert(t == j + sep + parts.last());
    }
    assert(t.subrange(t.len() - parts.last().len(), t.len() as int) =~= parts.last());
}

proof fn lemma_join_has_part(parts: Seq<Seq<char>>, sep: Seq<char>, k: int)
    requires
        0 <= k < parts.len(),
    ensures
        exists|i: int| #[trigger] stands_at(join_with(parts, sep), parts[k], i),
    decreases parts.len(),
{
    let t = join_with(parts, sep);
    if k == parts.len() - 1 {
        lemma_join_ends_with_last(parts, sep);
        assert(stands_at(t, parts[k], t.len() - parts[k].len()));
    } else {
        let front = parts.drop_last();
        assert(front[k] == parts[k]);
        lemma_join_has_part(front, sep, k);
        let j = join_with(front, sep);
        let i = choose|i: int| #[trigger] stands_at(j, front[k], i);
        assert(t == j + sep + parts.last());
        assert(t.subrange(i, i + parts[k].len()) =~= j.subrange(i, i + parts[k].len()));
        assert(stands_at(t, parts[k], i));
    }
}

/// What the torpor text shows of a torpor time: it starts with the whole
/// years when there is at least one, it shows the months beyond the whole
/// years when there are any, it ends with the days when there are any, and it
/// is "0 dagar" when there are neither months nor days. So the years `Y` and
/// months `M` it shows add back up to the months of the time: `12 * Y + M`.
pub proof fn lemma_torpor_text_shows_the_time(t: Torpor)
    ensures
        t.months >= 12 ==> stands_at(torpor_text(t), int_text((t.months / 12) as int) + " år"@, 0),
        t.months >= 0 && t.months % 12 > 0 ==> exists|i: int|
            #[trigger] stands_at(torpor_text(t), int_text((t.months % 12) as int) + " månader"@, i),
        t.days > 0 ==> stands_at(
            torpor_text(t),
            int_text(t.days as int) + " dagar"@,
            torpor_text(t).len() - (int_text(t.days as int) + " dagar"@).len(),
        ),
        t.months <= 0 && t.days <= 0 ==> torpor_text(t) == "0 dagar"@,
        t.months >= 0 ==> 12 * (t.months / 12) + t.months % 12 == t.months,
{
    let p = torpor_parts(t);
    let y = if t.months >= 12 { seq![int_text((t.months / 12) as int) + " år"@] } else { Seq::<Seq<char>>::empty() };
    let m = if t.months >= 0 && t.months % 12 > 0 {
        seq![int_text((t.months % 12) as int) + " månader"@]
    } else {
        Seq::<Seq<char>>::empty()
    };
    let d = if t.days > 0 { seq![int_text(t.days as int) + " dagar"@] } else { Seq::<Seq<char>>::empty() };
    assert(p == y + m + d);
    if t.months >= 12 {
        assert(p[0] == y[0]);
        lemma_join_starts_with_first(p, ", "@);
    }
    if t.months >= 0 && t.months % 12 > 0 {
        let k = y.len() as int;
        assert(p[k] == m[0]);
        lemma_join_has_part(p, ", "@, k);
        assert(p.len() > 0);
        assert(torpor_text(t) == join_with(p, ", "@));
        let i = choose|i: int| #[trigger] stands_at(join_with(p, ", "@), p[k], i);
        assert(stands_at(torpor_text(t), int_text((t.months % 12) as int) + " månader"@, i));
    }
    if t.days > 0 {
        assert(p.last() == d[0]);
        lemma_join_ends_with_last(p, ", "@);
    }
    if t.months <= 0 && t.days <= 0 {
        assert(p =~= Seq::<Seq<char>>::empty());
    }
}

} // verus!

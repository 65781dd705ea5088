use vstd::prelude::*;

verus! {

// ---------------------------------------------------------------------------
// Decimal text of integers
// ---------------------------------------------------------------------------

/// The ASCII character of a decimal digit.
pub open spec fn digit_char(d: nat) -> char {
    (d + 48) as char
}

/// The decimal digits of a natural number, without leading zeros.
pub open spec fn nat_text(n: nat) -> Seq<char>
    decreases n,
{
    if n < 10 {
        seq![digit_char(n)]
    } else {
        nat_text(n / 10).push(digit_char(n % 10))
    }
}

/// The decimal text of an integer as Rust's `Display` writes it: a minus
/// sign for negative values followed by the digits of the magnitude.
pub open spec fn int_text(n: int) -> Seq<char> {
    if n < 0 {
        seq!['-'] + nat_text((-n) as nat)
    } else {
        nat_text(n as nat)
    }
}

fn digit_str(d: u64) -> (r: &'static str)
    requires
        d < 10,
    ensures
        r@ == seq![digit_char(d as nat)],
{
    proof {
        reveal_strlit("0");
        reveal_strlit("1");
        reveal_strlit("2");
        reveal_strlit("3");
        reveal_strlit("4");
        reveal_strlit("5");
        reveal_strlit("6");
        reveal_strlit("7");
        reveal_strlit("8");
        reveal_strlit("9");
    }
    if d == 0 {
        "0"
    } else if d == 1 {
        "1"
    } else if d == 2 {
        "2"
    } else if d == 3 {
        "3"
    } else if d == 4 {
        "4"
    } else if d == 5 {
        "5"
    } else if d == 6 {
        "6"
    } else if d == 7 {
        "7"
    } else if d == 8 {
        "8"
    } else {
        "9"
    }
}

/// Appends the decimal digits of `n` to `out`.
pub fn push_nat_text(out: &mut String, n: u64)
    ensures
        final(out)@ == old(out)@ + nat_text(n as nat),
    decreases n,
{
    if n >= 10 {
        push_nat_text(out, n / 10);
    }
    out.append(digit_str(n % 10));
    proof {
        if n >= 10 {
            assert(nat_text(n as nat) == nat_text((n / 10) as nat).push(digit_char((n % 10) as nat)));
        }
        assert(final(out)@ == old(out)@ + nat_text(n as nat));
    }
}

/// Appends the decimal text of `n` to `out`.
pub fn push_int_text(out: &mut String, n: i64)
    ensures
        final(out)@ == old(out)@ + int_text(n as int),
{
    if n < 0 {
        proof {
            reveal_strlit("-");
        }
        out.append("-");
        let magnitude: u64 = if n == i64::MIN {
            9223372036854775808u64
        } else {
            (0 - n) as u64
        };
        let ghost before = out@;
        push_nat_text(out, magnitude);
        assert(out@ == before + nat_text(magnitude as nat));
    } else {
        push_nat_text(out, n as u64);
    }
}

/// The decimal text of an integer.
pub fn int_to_text(n: i64) -> (s: String)
    ensures
        s@ == int_text(n as int),
{
    let mut s = String::new();
    push_int_text(&mut s, n);
    s
}

// ---------------------------------------------------------------------------
// Parsing decimal integers
// ---------------------------------------------------------------------------

pub open spec fn is_ascii_digit(c: char) -> bool {
    '0' <= c <= '9'
}

pub open spec fn all_digits(s: Seq<char>) -> bool {
    forall|i: int| 0 <= i < s.len() ==> is_ascii_digit(#[trigger] s[i])
}

/// The value of a sequence of decimal digits.
pub open spec fn digits_value(s: Seq<char>) -> nat
    decreases s.len(),
{
    if s.len() == 0 {
        0
    } else {
        digits_value(s.drop_last()) * 10 + (s.last() as int - 48) as nat
    }
}

/// What `str::parse::<i64>` accepts: an optional `+` or `-`, then at least one
/// ASCII digit and nothing else, with a value in the range of `i64`.
pub open spec fn i64_parse(s: Seq<char>) -> Option<i64> {
    let signed = s.len() > 0 && (s[0] == '-' || s[0] == '+');
    let body = if signed { s.skip(1) } else { s };
    if body.len() > 0 && all_digits(body) {
        let v: int = if signed && s[0] == '-' { -digits_value(body) } else { digits_value(body) as int };
        if i64::MIN <= v <= i64::MAX { Some(v as i64) } else { None }
    } else {
        None
    }
}

proof fn lemma_digits_value_prefix(s: Seq<char>, k: int)
    requires
        0 <= k <= s.len(),
        all_digits(s),
    ensures
        digits_value(s.take(k)) <= digits_value(s),
    decreases s.len() - k,
{
    if k < s.len() {
        let t = s.drop_last();
        assert(all_digits(t)) by {
            assert forall|i: int| 0 <= i < t.len() implies is_ascii_digit(#[trigger] t[i]) by {
                assert(t[i] == s[i]);
            }
        }
        assert(t.take(k) =~= s.take(k));
        lemma_digits_value_prefix(t, k);
        assert(is_ascii_digit(s[s.len() - 1]));
    } else {
        assert(s.take(k) =~= s);
    }
}

/// `str::parse::<i64>`: decimal text with an optional sign.
pub fn parse_i64(s: &str) -> (r: Option<i64>)
    ensures
        r == i64_parse(s@),
{
    let len = s.unicode_len();
    if len == 0 {
        return None;
    }
    let first = s.get_char(0);
    let signed = first == '-' || first == '+';
    let start: usize = if signed { 1 } else { 0 };
    let ghost body = if signed { s@.skip(1) } else { s@ };
    assert(body =~= s@.subrange(start as int, len as int));
    if start == len {
        return None;
    }
    let mut acc: u64 = 0;
    let mut i: usize = start;
    while i < len
        invariant
            start <= i <= len,
            len == s@.len(),
            start < len,
            first == s@[0],
            signed == (first == '-' || first == '+'),
            start == (if signed { 1usize } else { 0usize }),
            body == (if signed { s@.skip(1) } else { s@ }),
            body == s@.subrange(start as int, len as int),
            acc as nat == digits_value(body.take(i - start)),
            all_digits(body.take(i - start)),
            acc <= 9223372036854775808u64,
        decreases len - i,
    {
        let c = s.get_char(i);
        let ghost k = i - start;
        assert(body[k] == c);
        if !('0' <= c && c <= '9') {
            assert(!all_digits(body));
            return None;
        }
        let d = (c as u32 - 48) as u64;
        assert(body.take(k + 1).drop_last() =~= body.take(k));
        assert(body.take(k + 1).last() == c);
        assert(all_digits(body.take(k + 1))) by {
            assert forall|j: int| 0 <= j < k + 1 implies is_ascii_digit(#[trigger] body.take(k + 1)[j]) by {
                if j < k {
                    assert(body.take(k + 1)[j] == body.take(k)[j]);
                }
            }
        }
        if acc > (9223372036854775808u64 - d) / 10 {
            proof {
                assert(digits_value(body.take(k + 1)) > 9223372036854775808) by (nonlinear_arith)
                    requires
                        digits_value(body.take(k + 1)) == acc * 10 + d,
                        acc > (9223372036854775808 - d) / 10,
                        d < 10,
                ;
                if all_digits(body) {
                    lemma_digits_value_prefix(body, k + 1);
                }
            }
            return None;
        }
        acc = acc * 10 + d;
        i = i + 1;
    }
    assert(body.take(len - start) =~= body);
    if signed && first == '-' {
        if acc == 9223372036854775808u64 {
            Some(i64::MIN)
        } else {
            Some(0 - (acc as i64))
        }
    } else if acc > 9223372036854775807u64 {
        None
    } else {
        Some(acc as i64)
    }
}

proof fn lemma_nat_text_digits(n: nat)
    ensures
        nat_text(n).len() > 0,
        all_digits(nat_text(n)),
        digits_value(nat_text(n)) == n,
    decreases n,
{
    assert(digit_char(n % 10) as int == n % 10 + 48);
    if n >= 10 {
        lemma_nat_text_digits(n / 10);
        let t = nat_text(n);
        let p = nat_text(n / 10);
        assert(t == p.push(digit_char(n % 10)));
        assert(t.drop_last() =~= p);
        assert(t.last() == digit_char(n % 10));
        assert(digits_value(t) == digits_value(p) * 10 + (n % 10));
        assert((n / 10) * 10 + n % 10 == n);
        assert forall|i: int| 0 <= i < t.len() implies is_ascii_digit(#[trigger] t[i]) by {
            if i < p.len() {
                assert(t[i] == p[i]);
            }
        }
    } else {
        let t = nat_text(n);
        assert(t.drop_last() =~= Seq::<char>::empty());
        assert(t.last() == digit_char(n));
        assert(digits_value(t) == digits_value(t.drop_last()) * 10 + (t.last() as int - 48) as nat);
    }
}

/// Reading back the decimal text of an integer gives the integer: parsing
/// undoes formatting.
pub proof fn lemma_parse_int_text(n: i64)
    ensures
        i64_parse(int_text(n as int)) == Some(n),
{
    let s = int_text(n as int);
    if n < 0 {
        let m = (-n) as nat;
        lemma_nat_text_digits(m);
        assert(s.skip(1) =~= nat_text(m));
    } else {
        lemma_nat_text_digits(n as nat);
        assert(is_ascii_digit(s[0]));
    }
}

} // verus!

verus! {

// ---------------------------------------------------------------------------
// Comparing and slicing text
// ---------------------------------------------------------------------------

/// Whether two strings hold the same characters.
pub fn text_eq(a: &str, b: &str) -> (r: bool)
    ensures
        r == (a@ == b@),
{
    let n = a.unicode_len();
    if n != b.unicode_len() {
        return false;
    }
    let mut i: usize = 0;
    while i < n
        invariant
            n == a@.len(),
            n == b@.len(),
            i <= n,
            forall|j: int| 0 <= j < i ==> a@[j] == b@[j],
        decreases n - i,
    {
        if a.get_char(i) != b.get_char(i) {
            return false;
        }
        i = i + 1;
    }
    assert(a@ =~= b@);
    true
}

/// Whether `s` begins with `prefix`.
pub fn has_prefix(s: &str, prefix: &str) -> (r: bool)
    ensures
        r == (prefix@.len() <= s@.len() && s@.subrange(0, prefix@.len() as int) == prefix@),
{
    let n = prefix.unicode_len();
    if n > s.unicode_len() {
        return false;
    }
    let mut i: usize = 0;
    while i < n
        invariant
            n == prefix@.len(),
            n <= s@.len(),
            i <= n,
            forall|j: int| 0 <= j < i ==> s@[j] == prefix@[j],
        decreases n - i,
    {
        if s.get_char(i) != prefix.get_char(i) {
            assert(s@.subrange(0, n as int)[i as int] != prefix@[i as int]);
            return false;
        }
        i = i + 1;
    }
    assert(s@.subrange(0, n as int) =~= prefix@);
    true
}

// ---------------------------------------------------------------------------
// Splitting on a separator
// ---------------------------------------------------------------------------

/// The pieces of `s` between the `sep` characters, as `str::split` yields
/// them: always at least one piece, empty pieces kept.
pub open spec fn split_on(s: Seq<char>, sep: char) -> Seq<Seq<char>>
    decreases s.len(),
{
    if s.len() == 0 {
        seq![Seq::<char>::empty()]
    } else {
        let pieces = split_on(s.drop_last(), sep);
        if s.last() == sep {
            pieces.push(Seq::<char>::empty())
        } else {
            pieces.update(pieces.len() - 1, pieces.last().push(s.last()))
        }
    }
}

pub open spec fn views(v: Seq<String>) -> Seq<Seq<char>> {
    v.map_values(|x: String| x@)
}

/// Splitting always yields at least one piece.
pub proof fn lemma_split_on_nonempty(s: Seq<char>, sep: char)
    ensures
        split_on(s, sep).len() >= 1,
    decreases s.len(),
{
    if s.len() > 0 {
        lemma_split_on_nonempty(s.drop_last(), sep);
    }
}

/// A separator at the end of the text starts a new, empty piece.
pub proof fn lemma_split_on_push_sep(a: Seq<char>, sep: char)
    ensures
        split_on(a.push(sep), sep) == split_on(a, sep).push(Seq::<char>::empty()),
{
    assert(a.push(sep).drop_last() =~= a);
}

/// Text with no separator in it, appended, lengthens the last piece.
pub proof fn lemma_split_on_append(a: Seq<char>, b: Seq<char>, sep: char)
    requires
        forall|i: int| 0 <= i < b.len() ==> b[i] != sep,
    ensures
        split_on(a + b, sep) == split_on(a, sep).update(
            split_on(a, sep).len() - 1,
            split_on(a, sep).last() + b,
        ),
    decreases b.len(),
{
    lemma_split_on_nonempty(a, sep);
    let p = split_on(a, sep);
    if b.len() == 0 {
        assert(a + b =~= a);
        assert(p.last() + b =~= p.last());
        assert(p.update(p.len() - 1, p.last() + b) =~= p);
    } else {
        let b0 = b.drop_last();
        assert forall|i: int| 0 <= i < b0.len() implies b0[i] != sep by {
            assert(b0[i] == b[i]);
        }
        lemma_split_on_append(a, b0, sep);
        assert((a + b).drop_last() =~= a + b0);
        assert((a + b).last() == b[b.len() - 1]);
        let q = p.update(p.len() - 1, p.last() + b0);
        assert(q.last() == p.last() + b0);
        assert((p.last() + b0).push(b.last()) =~= p.last() + b);
        assert(q.update(q.len() - 1, q.last().push(b.last())) =~= p.update(p.len() - 1, p.last() + b));
    }
}

/// The decimal text of an integer holds only digits and `-`.
pub proof fn lemma_int_text_chars(n: int)
    ensures
        int_text(n).len() > 0,
        forall|i: int| 0 <= i < int_text(n).len() ==> #[trigger] int_text(n)[i] == '-' || is_ascii_digit(int_text(n)[i]),
{
    if n < 0 {
        let m = (-n) as nat;
        lemma_nat_text_digits(m);
        let s = int_text(n);
        assert forall|i: int| 0 <= i < s.len() implies #[trigger] s[i] == '-' || is_ascii_digit(s[i]) by {
            if i > 0 {
                assert(s[i] == nat_text(m)[i - 1]);
            }
        }
    } else {
        lemma_nat_text_digits(n as nat);
    }
}

/// `str::split` on one character, collected into owned pieces.
pub fn split_text(s: &str, sep: char) -> (r: Vec<String>)
    ensures
        views(r@) == split_on(s@, sep),
{
    let n = s.unicode_len();
    let mut pieces: Vec<String> = Vec::new();
    let mut start: usize = 0;
    let mut i: usize = 0;
    assert(s@.take(0) =~= Seq::<char>::empty());
    assert(views(pieces@).push(s@.subrange(0, 0)) =~= seq![Seq::<char>::empty()]);
    while i < n
        invariant
            n == s@.len(),
            start <= i <= n,
            views(pieces@).push(s@.subrange(start as int, i as int)) == split_on(s@.take(i as int), sep),
        decreases n - i,
    {
        let c = s.get_char(i);
        let ghost before = views(pieces@).push(s@.subrange(start as int, i as int));
        assert(s@.take(i + 1).drop_last() =~= s@.take(i as int));
        assert(s@.take(i + 1).last() == c);
        if c == sep {
            let piece = s.substring_char(start, i).to_owned();
            pieces.push(piece);
            start = i + 1;
            assert(views(pieces@) =~= before);
            assert(s@.subrange(start as int, (i + 1) as int) =~= Seq::<char>::empty());
        } else {
            proof {
                lemma_split_on_nonempty(s@.take(i as int), sep);
                assert(s@.subrange(start as int, (i + 1) as int) =~= s@.subrange(start as int, i as int).push(c));
                assert(views(pieces@).push(s@.subrange(start as int, (i + 1) as int)) =~= before.update(
                    before.len() - 1,
                    before.last().push(c),
                ));
            }
        }
        i = i + 1;
    }
    let last = s.substring_char(start, n).to_owned();
    pieces.push(last);
    assert(s@.take(n as int) =~= s@);
    assert(views(pieces@) =~= split_on(s@, sep));
    pieces
}

} // verus!

verus! {

// ---------------------------------------------------------------------------
// Trimming white space
// ---------------------------------------------------------------------------

/// Unicode `White_Space`, as `char::is_whitespace` tests it.
pub open spec fn is_white_space(c: char) -> bool {
    let u = c as u32;
    ||| 0x09 <= u <= 0x0d
    ||| u == 0x20
    ||| u == 0x85
    ||| u == 0xa0
    ||| u == 0x1680
    ||| 0x2000 <= u <= 0x200a
    ||| u == 0x2028
    ||| u == 0x2029
    ||| u == 0x202f
    ||| u == 0x205f
    ||| u == 0x3000
}

pub open spec fn trim_start_ws(s: Seq<char>) -> Seq<char>
    decreases s.len(),
{
    if s.len() > 0 && is_white_space(s[0]) {
        trim_start_ws(s.drop_first())
    } else {
        s
    }
}

pub open spec fn trim_end_ws(s: Seq<char>) -> Seq<char>
    decreases s.len(),
{
    if s.len() > 0 && is_white_space(s.last()) {
        trim_end_ws(s.drop_last())
    } else {
        s
    }
}

/// `str::trim`: the text without leading and trailing white space.
pub open spec fn trimmed(s: Seq<char>) -> Seq<char> {
    trim_end_ws(trim_start_ws(s))
}

fn is_white_space_char(c: char) -> (r: bool)
    ensures
        r == is_white_space(c),
{
    let u = c as u32;
    (0x09 <= u && u <= 0x0d) || u == 0x20 || u == 0x85 || u == 0xa0 || u == 0x1680 || (0x2000 <= u
        && u <= 0x200a) || u == 0x2028 || u == 0x2029 || u == 0x202f || u == 0x205f || u == 0x3000
}

/// The text without leading and trailing white space.
pub fn trim_text(s: &str) -> (r: String)
    ensures
        r@ == trimmed(s@),
{
    let n = s.unicode_len();
    let mut a: usize = 0;
    assert(s@.subrange(0, n as int) =~= s@);
    while a < n && is_white_space_char(s.get_char(a))
        invariant
            n == s@.len(),
            a <= n,
            trim_start_ws(s@) == trim_start_ws(s@.subrange(a as int, n as int)),
        decreases n - a,
    {
        assert(s@.subrange(a as int, n as int).drop_first() =~= s@.subrange(a + 1, n as int));
        a = a + 1;
    }
    let ghost start = s@.subrange(a as int, n as int);
    assert(trim_start_ws(s@) == start);
    let mut b: usize = n;
    while b > a && is_white_space_char(s.get_char(b - 1))
        invariant
            n == s@.len(),
            a <= b <= n,
            start == s@.subrange(a as int, n as int),
            trim_end_ws(start) == trim_end_ws(s@.subrange(a as int, b as int)),
        decreases b - a,
    {
        assert(s@.subrange(a as int, b as int).drop_last() =~= s@.subrange(a as int, b - 1));
        b = b - 1;
    }
    s.substring_char(a, b).to_owned()
}

} // verus!

verus! {

/// What `str::parse::<usize>` accepts: an optional `+`, then at least one
/// ASCII digit and nothing else, with a value that fits in `usize`.
pub open spec fn usize_parse(s: Seq<char>) -> Option<usize> {
    let body = if s.len() > 0 && s[0] == '+' { s.skip(1) } else { s };
    if body.len() > 0 && all_digits(body) && digits_value(body) <= usize::MAX {
        Some(digits_value(body) as usize)
    } else {
        None
    }
}

/// `str::parse::<usize>`: unsigned decimal text.
pub fn parse_usize(s: &str) -> (r: Option<usize>)
    ensures
        r == usize_parse(s@),
{
    let len = s.unicode_len();
    if len == 0 {
        return None;
    }
    let signed = s.get_char(0) == '+';
    let start: usize = if signed { 1 } else { 0 };
    let ghost body = if signed { s@.skip(1) } else { s@ };
    assert(body =~= s@.subrange(start as int, len as int));
    if start == len {
        return None;
    }
    let mut acc: usize = 0;
    let mut i: usize = start;
    while i < len
        invariant
            start <= i <= len,
            len == s@.len(),
            start < len,
            signed == (s@[0] == '+'),
            start == (if signed { 1usize } else { 0usize }),
            body == (if signed { s@.skip(1) } else { s@ }),
            body == s@.subrange(start as int, len as int),
            acc as nat == digits_value(body.take(i - start)),
            all_digits(body.take(i - start)),
        decreases len - i,
    {
        let c = s.get_char(i);
        let ghost k = i - start;
        assert(body[k] == c);
        if !('0' <= c && c <= '9') {
            assert(!all_digits(body));
            return None;
        }
        let d = (c as u32 - 48) as usize;
        assert(body.take(k + 1).drop_last() =~= body.take(k));
        assert(body.take(k + 1).last() == c);
        assert(all_digits(body.take(k + 1))) by {
            assert forall|j: int| 0 <= j < k + 1 implies is_ascii_digit(#[trigger] body.take(k + 1)[j]) by {
                if j < k {
                    assert(body.take(k + 1)[j] == body.take(k)[j]);
                }
            }
        }
        if acc > (usize::MAX - d) / 10 {
            proof {
                assert(digits_value(body.take(k + 1)) > usize::MAX) by (nonlinear_arith)
                    requires
                        digits_value(body.take(k + 1)) == acc * 10 + d,
                        acc > (usize::MAX - d) / 10,
                        d < 10,
                ;
                if all_digits(body) {
                    lemma_digits_value_prefix(body, k + 1);
                }
            }
            return None;
        }
        acc = acc * 10 + d;
        i = i + 1;
    }
    assert(body.take(len - start) =~= body);
    Some(acc)
}

} // verus!

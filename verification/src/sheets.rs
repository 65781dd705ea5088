use vstd::prelude::*;
use crate::errors::{AppError, draft_error};
use crate::roles::CharacterStatus;

verus! {

// ---------------------------------------------------------------------------
// Grouping characters by status
// ---------------------------------------------------------------------------

/// `group` lists, in increasing order, exactly the positions of `statuses`
/// that hold `status`.
pub open spec fn lists_positions_with(group: Seq<usize>, statuses: Seq<CharacterStatus>, status: CharacterStatus) -> bool {
    &&& forall|i: int, j: int| 0 <= i < j < group.len() ==> group[i] < group[j]
    &&& forall|i: int| 0 <= i < group.len() ==> group[i] < statuses.len() && statuses[group[i] as int] == status
    &&& forall|k: int| 0 <= k < statuses.len() && statuses[k] == status ==> group.contains(k as usize)
}

/// The positions of a list of characters, grouped by status.
pub struct StatusGroups {
    pub draft: Vec<usize>,
    pub active: Vec<usize>,
    pub inactive: Vec<usize>,
}

/// Groups characters by status, keeping their order within each group.
pub fn group_by_status(statuses: &Vec<CharacterStatus>) -> (g: StatusGroups)
    ensures
        lists_positions_with(g.draft@, statuses@, CharacterStatus::Draft),
        lists_positions_with(g.active@, statuses@, CharacterStatus::Active),
        lists_positions_with(g.inactive@, statuses@, CharacterStatus::Inactive),
{
    let mut draft: Vec<usize> = Vec::new();
    let mut active: Vec<usize> = Vec::new();
    let mut inactive: Vec<usize> = Vec::new();
    let mut k: usize = 0;
    while k < statuses.len()
        invariant
            k <= statuses.len(),
            forall|i: int, j: int| 0 <= i < j < draft@.len() ==> draft@[i] < draft@[j],
            forall|i: int, j: int| 0 <= i < j < active@.len() ==> active@[i] < active@[j],
            forall|i: int, j: int| 0 <= i < j < inactive@.len() ==> inactive@[i] < inactive@[j],
            forall|i: int| 0 <= i < draft@.len() ==> draft@[i] < k && statuses@[draft@[i] as int] == CharacterStatus::Draft,
            forall|i: int| 0 <= i < active@.len() ==> active@[i] < k && statuses@[active@[i] as int] == CharacterStatus::Active,
            forall|i: int| 0 <= i < inactive@.len() ==> inactive@[i] < k && statuses@[inactive@[i] as int] == CharacterStatus::Inactive,
            forall|m: int| 0 <= m < k && statuses@[m] == CharacterStatus::Draft ==> draft@.contains(m as usize),
            forall|m: int| 0 <= m < k && statuses@[m] == CharacterStatus::Active ==> active@.contains(m as usize),
            forall|m: int| 0 <= m < k && statuses@[m] == CharacterStatus::Inactive ==> inactive@.contains(m as usize),
        decreases statuses.len() - k,
    {
        let ghost (d0, a0, i0) = (draft@, active@, inactive@);
        match statuses[k] {
            CharacterStatus::Draft => draft.push(k),
            CharacterStatus::Active => active.push(k),
            CharacterStatus::Inactive => inactive.push(k),
        }
        assert forall|m: int| 0 <= m < k + 1 && statuses@[m] == CharacterStatus::Draft implies draft@.contains(m as usize) by {
            if m < k {
                assert(d0.contains(m as usize));
                let j = choose|j: int| 0 <= j < d0.len() && d0[j] == m as usize;
                assert(draft@[j] == m as usize);
            } else {
                assert(draft@[draft@.len() - 1] == k);
            }
        }
        assert forall|m: int| 0 <= m < k + 1 && statuses@[m] == CharacterStatus::Active implies active@.contains(m as usize) by {
            if m < k {
                assert(a0.contains(m as usize));
                let j = choose|j: int| 0 <= j < a0.len() && a0[j] == m as usize;
                assert(active@[j] == m as usize);
            } else {
                assert(active@[active@.len() - 1] == k);
            }
        }
        assert forall|m: int| 0 <= m < k + 1 && statuses@[m] == CharacterStatus::Inactive implies inactive@.contains(m as usize) by {
            if m < k {
                assert(i0.contains(m as usize));
                let j = choose|j: int| 0 <= j < i0.len() && i0[j] == m as usize;
                assert(inactive@[j] == m as usize);
            } else {
                assert(inactive@[inactive@.len() - 1] == k);
            }
        }
        k = k + 1;
    }
    StatusGroups { draft, active, inactive }
}

/// A player sees the form for a new character only while they have no
/// active and no draft character.
pub fn shows_create_form(groups: &StatusGroups) -> (r: bool)
    ensures
        r == (groups.active@.len() == 0 && groups.draft@.len() == 0),
{
    groups.active.len() == 0 && groups.draft.len() == 0
}

/// Every character lands in exactly one group: the group of its status.
pub proof fn lemma_groups_partition(statuses: Seq<CharacterStatus>, g: StatusGroups, k: int)
    requires
        lists_positions_with(g.draft@, statuses, CharacterStatus::Draft),
        lists_positions_with(g.active@, statuses, CharacterStatus::Active),
        lists_positions_with(g.inactive@, statuses, CharacterStatus::Inactive),
        0 <= k < statuses.len(),
    ensures
        g.draft@.contains(k as usize) <==> statuses[k] == CharacterStatus::Draft,
        g.active@.contains(k as usize) <==> statuses[k] == CharacterStatus::Active,
        g.inactive@.contains(k as usize) <==> statuses[k] == CharacterStatus::Inactive,
{
}

// ---------------------------------------------------------------------------
// Spending experience
// ---------------------------------------------------------------------------

/// Experience is spent only on an active character.
pub fn check_can_spend(status: CharacterStatus) -> (r: Result<(), AppError>)
    ensures
        status == CharacterStatus::Active ==> r == Ok::<(), AppError>(()),
        status != CharacterStatus::Active ==> r == Err::<(), AppError>(AppError::CharacterNotActive),
{
    if status.is_active() {
        Ok(())
    } else {
        Err(AppError::CharacterNotActive)
    }
}

} // verus!

verus! {

/// One requested use of experience in a player's draft.
pub enum DraftOperation {
    Stat { stat: String, increase: i32 },
    Power { power: String, increase: i32 },
    Influence { influence: String, increase: i32 },
    Humanity { change: i32, note: String },
}

/// The message for a draft operation whose experience rule is missing.
pub open spec fn missing_rule_text(op: DraftOperation) -> Seq<char> {
    match op {
        DraftOperation::Stat { stat, .. } => "Missing XP rule for stat '"@ + stat@ + "'"@,
        DraftOperation::Power { power, .. } => "Missing XP rule for power '"@ + power@ + "'"@,
        DraftOperation::Influence { influence, .. } => "Missing XP rule for influence '"@ + influence@ + "'"@,
        DraftOperation::Humanity { .. } => "Missing XP rule for humanity change"@,
    }
}

/// A draft operation is stored only if its experience rule exists: exactly
/// one row must have been written.
pub fn check_draft_op_recorded(op: &DraftOperation, rows_affected: u64) -> (r: Result<(), AppError>)
    ensures
        rows_affected == 1 ==> r == Ok::<(), AppError>(()),
        rows_affected != 1 ==> draft_error(r, missing_rule_text(*op)),
{
    if rows_affected == 1 {
        return Ok(());
    }
    let mut t = String::new();
    match op {
        DraftOperation::Stat { stat, .. } => {
            t.append("Missing XP rule for stat '");
            t.append(stat.as_str());
            t.append("'");
        },
        DraftOperation::Power { power, .. } => {
            t.append("Missing XP rule for power '");
            t.append(power.as_str());
            t.append("'");
        },
        DraftOperation::Influence { influence, .. } => {
            t.append("Missing XP rule for influence '");
            t.append(influence.as_str());
            t.append("'");
        },
        DraftOperation::Humanity { .. } => {
            t.append("Missing XP rule for humanity change");
        },
    }
    Err(AppError::InvalidDraft(t))
}

/// The database's check-violation code: a power already has a raise that
/// waits for review.
pub open spec fn is_pending_raise_code(code: Seq<char>) -> bool {
    code == "23514"@
}

/// The message shown when a power already has a raise waiting for review.
pub open spec fn pending_raise_text() -> Seq<char> {
    "Det finns redan en pågående höjning för denna kraft som väntar på granskning"@
}

/// How a failed insert of a power raise is answered: a pending raise for the
/// power is reported to the user; any other failure is not this function's
/// to answer (`None`).
pub fn power_raise_conflict(code: Option<&str>) -> (r: Option<AppError>)
    ensures
        (code matches Some(c) && is_pending_raise_code(c@)) ==> (r matches Some(e) && draft_error(
            Err::<(), AppError>(e),
            pending_raise_text(),
        )),
        !(code matches Some(c) && is_pending_raise_code(c@)) ==> r is None,
{
    match code {
        Some(c) => if crate::text::text_eq(c, "23514") {
            Some(AppError::InvalidDraft(
                "Det finns redan en pågående höjning för denna kraft som väntar på granskning".to_owned(),
            ))
        } else {
            None
        },
        None => None,
    }
}

// ---------------------------------------------------------------------------
// Experience prices
// ---------------------------------------------------------------------------

/// A stat or influence with its price per level, if it has one.
pub struct CostRow {
    pub id: String,
    pub xp_cost: Option<i32>,
}

/// A price per level.
pub struct CostEntry {
    pub id: String,
    pub xp_cost: i32,
}

/// The prices by id: each row with a price sets the price of its id, a
/// later row overriding an earlier one.
pub open spec fn cost_map(rows: Seq<CostRow>) -> Map<Seq<char>, i32>
    decreases rows.len(),
{
    if rows.len() == 0 {
        Map::empty()
    } else {
        let m = cost_map(rows.drop_last());
        match rows.last().xp_cost {
            Some(c) => m.insert(rows.last().id@, c),
            None => m,
        }
    }
}

/// `entries` holds each id at most once, and exactly the prices of `m`.
pub open spec fn lists_map(entries: Seq<CostEntry>, m: Map<Seq<char>, i32>) -> bool {
    &&& forall|i: int, j: int| 0 <= i < j < entries.len() ==> entries[i].id@ != entries[j].id@
    &&& forall|j: int| 0 <= j < entries.len() ==> m.contains_key(#[trigger] entries[j].id@) && m[entries[j].id@] == entries[j].xp_cost
    &&& forall|k: Seq<char>| m.contains_key(k) ==> exists|j: int| 0 <= j < entries.len() && #[trigger] entries[j].id@ == k
}

/// The price list of stats or influences, by id.
pub fn collect_costs(rows: &Vec<CostRow>) -> (r: Vec<CostEntry>)
    ensures
        lists_map(r@, cost_map(rows@)),
{
    let mut out: Vec<CostEntry> = Vec::new();
    let mut i: usize = 0;
    assert(rows@.take(0) =~= Seq::<CostRow>::empty());
    while i < rows.len()
        invariant
            i <= rows.len(),
            lists_map(out@, cost_map(rows@.take(i as int))),
        decreases rows.len() - i,
    {
        let row = &rows[i];
        assert(rows@.take(i + 1).drop_last() =~= rows@.take(i as int));
        assert(rows@.take(i + 1).last() == *row);
        let ghost before = cost_map(rows@.take(i as int));
        match row.xp_cost {
            None => {},
            Some(c) => {
                let mut j: usize = 0;
                while j < out.len() && !crate::text::text_eq(out[j].id.as_str(), row.id.as_str())
                    invariant
                        j <= out.len(),
                        forall|q: int| 0 <= q < j ==> out@[q].id@ != row.id@,
                    decreases out.len() - j,
                {
                    j = j + 1;
                }
                let ghost old_out = out@;
                let ghost after = before.insert(row.id@, c);
                if j < out.len() {
                    out.set(j, CostEntry { id: row.id.clone(), xp_cost: c });
                    assert(old_out[j as int].id@ == row.id@);
                    assert forall|a: int, b: int| 0 <= a < b < out@.len() implies out@[a].id@ != out@[b].id@ by {
                        assert(out@[a].id@ == old_out[a].id@);
                        assert(out@[b].id@ == old_out[b].id@);
                    }
                    assert forall|q: int| 0 <= q < out@.len() implies after.contains_key(#[trigger] out@[q].id@)
                        && after[out@[q].id@] == out@[q].xp_cost by {
                        if q != j {
                            assert(out@[q] == old_out[q]);
                        }
                    }
                    assert forall|k: Seq<char>| after.contains_key(k) implies exists|q: int|
                        0 <= q < out@.len() && #[trigger] out@[q].id@ == k by {
                        if k == row.id@ {
                            assert(out@[j as int].id@ == k);
                        } else {
                            let q = choose|q: int| 0 <= q < old_out.len() && #[trigger] old_out[q].id@ == k;
                            assert(out@[q] == old_out[q]);
                        }
                    }
                } else {
                    out.push(CostEntry { id: row.id.clone(), xp_cost: c });
                    assert forall|a: int, b: int| 0 <= a < b < out@.len() implies out@[a].id@ != out@[b].id@ by {
                        assert(out@[a].id@ == old_out[a].id@);
                        if b < old_out.len() {
                            assert(out@[b].id@ == old_out[b].id@);
                        }
                    }
                    assert forall|q: int| 0 <= q < out@.len() implies after.contains_key(#[trigger] out@[q].id@)
                        && after[out@[q].id@] == out@[q].xp_cost by {
                        if q < old_out.len() {
                            assert(out@[q] == old_out[q]);
                        }
                    }
                    assert forall|k: Seq<char>| after.contains_key(k) implies exists|q: int|
                        0 <= q < out@.len() && #[trigger] out@[q].id@ == k by {
                        if k == row.id@ {
                            assert(out@[old_out.len() as int].id@ == k);
                        } else {
                            let q = choose|q: int| 0 <= q < old_out.len() && #[trigger] old_out[q].id@ == k;
                            assert(out@[q] == old_out[q]);
                        }
                    }
                }
            },
        }
        i = i + 1;
    }
    assert(rows@.take(rows.len() as int) =~= rows@);
    out
}

} // verus!

verus! {

/// A power's price for one level, in or out of clan.
pub struct PowerCostRow {
    pub in_clan: bool,
    pub level: i32,
    pub xp_cost: i32,
}

/// The price of one level.
#[derive(Debug, Clone, Copy, PartialEq, Eq, Structural)]
pub struct LevelCost {
    pub level: i32,
    pub xp_cost: i32,
}

/// The prices by level of the rows for in-clan powers (or out-of-clan ones):
/// a later row overrides an earlier one for the same level.
pub open spec fn level_map(rows: Seq<PowerCostRow>, in_clan: bool) -> Map<i32, i32>
    decreases rows.len(),
{
    if rows.len() == 0 {
        Map::empty()
    } else {
        let m = level_map(rows.drop_last(), in_clan);
        if rows.last().in_clan == in_clan {
            m.insert(rows.last().level, rows.last().xp_cost)
        } else {
            m
        }
    }
}

/// `entries` holds each level at most once, and exactly the prices of `m`.
pub open spec fn lists_levels(entries: Seq<LevelCost>, m: Map<i32, i32>) -> bool {
    &&& forall|i: int, j: int| 0 <= i < j < entries.len() ==> entries[i].level != entries[j].level
    &&& forall|j: int| 0 <= j < entries.len() ==> m.contains_key(#[trigger] entries[j].level) && m[entries[j].level] == entries[j].xp_cost
    &&& forall|k: i32| m.contains_key(k) ==> exists|j: int| 0 <= j < entries.len() && #[trigger] entries[j].level == k
}

fn set_level_cost(out: &mut Vec<LevelCost>, m: Ghost<Map<i32, i32>>, level: i32, xp_cost: i32)
    requires
        lists_levels(old(out)@, m@),
    ensures
        lists_levels(final(out)@, m@.insert(level, xp_cost)),
{
    let mut j: usize = 0;
    while j < out.len() && out[j].level != level
        invariant
            j <= out.len(),
            forall|q: int| 0 <= q < j ==> out@[q].level != level,
        decreases out.len() - j,
    {
        j = j + 1;
    }
    let ghost old_out = out@;
    let ghost after = m@.insert(level, xp_cost);
    if j < out.len() {
        out.set(j, LevelCost { level, xp_cost });
        assert forall|a: int, b: int| 0 <= a < b < out@.len() implies out@[a].level != out@[b].level by {
            assert(out@[a].level == old_out[a].level);
            assert(out@[b].level == old_out[b].level);
        }
        assert forall|q: int| 0 <= q < out@.len() implies after.contains_key(#[trigger] out@[q].level)
            && after[out@[q].level] == out@[q].xp_cost by {
            if q != j {
                assert(out@[q] == old_out[q]);
            }
        }
        assert forall|k: i32| after.contains_key(k) implies exists|q: int| 0 <= q < out@.len() && #[trigger] out@[q].level == k by {
            if k == level {
                assert(out@[j as int].level == k);
            } else {
                let q = choose|q: int| 0 <= q < old_out.len() && #[trigger] old_out[q].level == k;
                assert(out@[q] == old_out[q]);
            }
        }
    } else {
        out.push(LevelCost { level, xp_cost });
        assert forall|a: int, b: int| 0 <= a < b < out@.len() implies out@[a].level != out@[b].level by {
            assert(out@[a].level == old_out[a].level);
            if b < old_out.len() {
                assert(out@[b].level == old_out[b].level);
            }
        }
        assert forall|q: int| 0 <= q < out@.len() implies after.contains_key(#[trigger] out@[q].level)
            && after[out@[q].level] == out@[q].xp_cost by {
            if q < old_out.len() {
                assert(out@[q] == old_out[q]);
            }
        }
        assert forall|k: i32| after.contains_key(k) implies exists|q: int| 0 <= q < out@.len() && #[trigger] out@[q].level == k by {
            if k == level {
                assert(out@[old_out.len() as int].level == k);
            } else {
                let q = choose|q: int| 0 <= q < old_out.len() && #[trigger] old_out[q].level == k;
                assert(out@[q] == old_out[q]);
            }
        }
    }
}

/// The power price lists: by level for in-clan powers and for out-of-clan
/// powers.
pub fn collect_power_costs(rows: &Vec<PowerCostRow>) -> (r: (Vec<LevelCost>, Vec<LevelCost>))
    ensures
        lists_levels(r.0@, level_map(rows@, true)),
        lists_levels(r.1@, level_map(rows@, false)),
{
    let mut in_clan: Vec<LevelCost> = Vec::new();
    let mut out_clan: Vec<LevelCost> = Vec::new();
    let mut i: usize = 0;
    assert(rows@.take(0) =~= Seq::<PowerCostRow>::empty());
    while i < rows.len()
        invariant
            i <= rows.len(),
            lists_levels(in_clan@, level_map(rows@.take(i as int), true)),
            lists_levels(out_clan@, level_map(rows@.take(i as int), false)),
        decreases rows.len() - i,
    {
        let row = &rows[i];
        assert(rows@.take(i + 1).drop_last() =~= rows@.take(i as int));
        assert(rows@.take(i + 1).last() == *row);
        if row.in_clan {
            set_level_cost(&mut in_clan, Ghost(level_map(rows@.take(i as int), true)), row.level, row.xp_cost);
        } else {
            set_level_cost(&mut out_clan, Ghost(level_map(rows@.take(i as int), false)), row.level, row.xp_cost);
        }
        i = i + 1;
    }
    assert(rows@.take(rows.len() as int) =~= rows@);
    (in_clan, out_clan)
}

/// A price for gaining or losing humanity.
pub struct HumanityCostRow {
    pub change_type: String,
    pub xp_cost: i32,
}

/// The price of the last row of the given change type, or 0 without one.
pub open spec fn last_cost_of(rows: Seq<HumanityCostRow>, change_type: Seq<char>) -> i32
    decreases rows.len(),
{
    if rows.len() == 0 {
        0
    } else if rows.last().change_type@ == change_type {
        rows.last().xp_cost
    } else {
        last_cost_of(rows.drop_last(), change_type)
    }
}

/// The prices of gaining and of losing a point of humanity; rows of other
/// change types are ignored.
pub fn humanity_costs(rows: &Vec<HumanityCostRow>) -> (r: (i32, i32))
    ensures
        r.0 == last_cost_of(rows@, "gain"@),
        r.1 == last_cost_of(rows@, "loss"@),
{
    let mut gain: i32 = 0;
    let mut loss: i32 = 0;
    let mut i: usize = 0;
    assert(rows@.take(0) =~= Seq::<HumanityCostRow>::empty());
    while i < rows.len()
        invariant
            i <= rows.len(),
            gain == last_cost_of(rows@.take(i as int), "gain"@),
            loss == last_cost_of(rows@.take(i as int), "loss"@),
        decreases rows.len() - i,
    {
        let row = &rows[i];
        assert(rows@.take(i + 1).drop_last() =~= rows@.take(i as int));
        assert(rows@.take(i + 1).last() == *row);
        proof {
            reveal_strlit("gain");
            reveal_strlit("loss");
            assert("gain"@[0] != "loss"@[0]);
        }
        if crate::text::text_eq(row.change_type.as_str(), "gain") {
            gain = row.xp_cost;
        } else if crate::text::text_eq(row.change_type.as_str(), "loss") {
            loss = row.xp_cost;
        }
        i = i + 1;
    }
    assert(rows@.take(rows.len() as int) =~= rows@);
    (gain, loss)
}

} // verus!

verus! {

// ---------------------------------------------------------------------------
// Embedding JSON in a page
// ---------------------------------------------------------------------------

/// `str::replace("</", "<\\/")`: every `</`, scanned from the left, becomes
/// `<\/` (the JSON escape of the same slash).
pub open spec fn script_escaped(s: Seq<char>) -> Seq<char>
    decreases s.len(),
{
    if s.len() == 0 {
        seq![]
    } else if s.len() >= 2 && s[0] == '<' && s[1] == '/' {
        seq!['<', '\\', '/'] + script_escaped(s.skip(2))
    } else {
        seq![s[0]] + script_escaped(s.skip(1))
    }
}

/// The text holds `</` somewhere (which would end a script element).
pub open spec fn has_close_tag(s: Seq<char>) -> bool {
    exists|i: int| 0 <= i < s.len() - 1 && #[trigger] s[i] == '<' && s[i + 1] == '/'
}

/// Escapes JSON text for a `<script>` element.
pub fn escape_script_json(s: &str) -> (r: String)
    ensures
        r@ == script_escaped(s@),
{
    let n = s.unicode_len();
    let mut out = String::new();
    let mut i: usize = 0;
    proof {
        reveal_strlit("<\\/");
        assert(s@.skip(0) =~= s@);
    }
    while i < n
        invariant
            n == s@.len(),
            i <= n,
            out@ + script_escaped(s@.skip(i as int)) == script_escaped(s@),
        decreases n - i,
    {
        let ghost rest = s@.skip(i as int);
        if i + 1 < n && s.get_char(i) == '<' && s.get_char(i + 1) == '/' {
            proof {
                reveal_strlit("<\\/");
                assert(rest[0] == '<' && rest[1] == '/');
                assert(script_escaped(rest) == seq!['<', '\\', '/'] + script_escaped(rest.skip(2)));
            }
            out.append("<\\/");
            assert(rest.skip(2) =~= s@.skip(i + 2));
            assert(out@ + script_escaped(s@.skip(i + 2)) =~= script_escaped(s@));
            i = i + 2;
        } else {
            out.append(s.substring_char(i, i + 1));
            assert(rest.skip(1) =~= s@.skip(i + 1));
            assert(s@.subrange(i as int, i + 1) =~= seq![rest[0]]);
            assert(out@ + script_escaped(s@.skip(i + 1)) =~= script_escaped(s@));
            i = i + 1;
        }
    }
    proof {
        assert(s@.skip(n as int) =~= Seq::<char>::empty());
        assert(out@ =~= out@ + script_escaped(s@.skip(n as int)));
    }
    out
}

proof fn lemma_script_escaped_first(s: Seq<char>)
    requires
        s.len() > 0,
    ensures
        script_escaped(s).len() > 0,
        script_escaped(s)[0] == s[0],
{
}

/// Escaped JSON never holds `</`, so it cannot end the script element it is
/// embedded in.
pub proof fn lemma_script_escaped_has_no_close_tag(s: Seq<char>)
    ensures
        !has_close_tag(script_escaped(s)),
    decreases s.len(),
{
    let e = script_escaped(s);
    if s.len() == 0 {
    } else if s.len() >= 2 && s[0] == '<' && s[1] == '/' {
        let t = s.skip(2);
        lemma_script_escaped_has_no_close_tag(t);
        let head = seq!['<', '\\', '/'];
        assert(e == head + script_escaped(t));
        assert forall|i: int| 0 <= i < e.len() - 1 implies !(#[trigger] e[i] == '<' && e[i + 1] == '/') by {
            if i >= 3 {
                assert(e[i] == script_escaped(t)[i - 3]);
                assert(e[i + 1] == script_escaped(t)[i - 2]);
            } else if i == 2 {
                assert(e[i] == '/');
            } else if i == 1 {
                assert(e[i] == '\\');
            } else {
                assert(e[i + 1] == '\\');
            }
        }
    } else {
        let t = s.skip(1);
        lemma_script_escaped_has_no_close_tag(t);
        assert(e == seq![s[0]] + script_escaped(t));
        assert forall|i: int| 0 <= i < e.len() - 1 implies !(#[trigger] e[i] == '<' && e[i + 1] == '/') by {
            if i >= 1 {
                assert(e[i] == script_escaped(t)[i - 1]);
                assert(e[i + 1] == script_escaped(t)[i]);
            } else {
                if s[0] == '<' {
                    lemma_script_escaped_first(t);
                    assert(e[1] == t[0]);
                    assert(t[0] == s[1]);
                }
            }
        }
    }
}

} // verus!

verus! {

// ---------------------------------------------------------------------------
// Grouping accounts by type
// ---------------------------------------------------------------------------

/// The positions of the accounts of one type.
pub struct TypeGroup {
    pub account_type: String,
    pub positions: Vec<usize>,
}

/// `groups` has one group per account type that occurs in `types`, each
/// listing, in order, exactly the positions of that type.
pub open spec fn groups_types(groups: Seq<TypeGroup>, types: Seq<Seq<char>>) -> bool {
    &&& forall|a: int, b: int| 0 <= a < b < groups.len() ==> groups[a].account_type@ != groups[b].account_type@
    &&& forall|a: int| 0 <= a < groups.len() ==> {
        let p = #[trigger] groups[a].positions@;
        &&& p.len() > 0
        &&& forall|i: int, j: int| 0 <= i < j < p.len() ==> p[i] < p[j]
        &&& forall|i: int| 0 <= i < p.len() ==> p[i] < types.len() && types[p[i] as int] == groups[a].account_type@
    }
    &&& forall|k: int| #![trigger types[k]] 0 <= k < types.len() ==> exists|a: int|
        0 <= a < groups.len() && #[trigger] groups[a].account_type@ == types[k] && groups[a].positions@.contains(k as usize)
}

/// Groups accounts by their type, keeping their order within each type.
pub fn group_by_type(types: &Vec<String>) -> (r: Vec<TypeGroup>)
    ensures
        groups_types(r@, crate::text::views(types@)),
{
    let mut groups: Vec<TypeGroup> = Vec::new();
    let mut k: usize = 0;
    while k < types.len()
        invariant
            k <= types.len(),
            groups_types(groups@, crate::text::views(types@).take(k as int)),
            forall|a: int| 0 <= a < groups@.len() ==> forall|i: int|
                0 <= i < (#[trigger] groups@[a]).positions@.len() ==> groups@[a].positions@[i] < k,
        decreases types.len() - k,
    {
        let ghost tv = crate::text::views(types@);
        let ghost before = tv.take(k as int);
        let ghost after = tv.take(k + 1);
        assert forall|m: int| 0 <= m < k implies after[m] == before[m] by {}
        assert(after[k as int] == types@[k as int]@);
        let mut j: usize = 0;
        while j < groups.len() && !crate::text::text_eq(groups[j].account_type.as_str(), types[k].as_str())
            invariant
                j <= groups.len(),
                k < types.len(),
                forall|q: int| 0 <= q < j ==> groups@[q].account_type@ != types@[k as int]@,
            decreases groups.len() - j,
        {
            j = j + 1;
        }
        let ghost old_groups = groups@;
        if j < groups.len() {
            let mut g = TypeGroup { account_type: String::new(), positions: Vec::new() };
            groups.set_and_swap(j, &mut g);
            let ghost old_positions = g.positions@;
            assert(old_positions == old_groups[j as int].positions@);
            assert(g.account_type@ == types@[k as int]@);
            g.positions.push(k);
            groups.set(j, g);
            assert(groups@ == old_groups.update(j as int, groups@[j as int]));
            assert forall|a: int, b: int| 0 <= a < b < groups@.len() implies groups@[a].account_type@
                != groups@[b].account_type@ by {
                assert(groups@[a].account_type@ == old_groups[a].account_type@);
                assert(groups@[b].account_type@ == old_groups[b].account_type@);
            }
            assert forall|a: int| 0 <= a < groups@.len() implies {
                let p = #[trigger] groups@[a].positions@;
                &&& p.len() > 0
                &&& forall|i: int, i2: int| 0 <= i < i2 < p.len() ==> p[i] < p[i2]
                &&& forall|i: int| 0 <= i < p.len() ==> p[i] < after.len() && after[p[i] as int] == groups@[a].account_type@
            } by {
                let p = groups@[a].positions@;
                if a == j {
                    assert(p == old_positions.push(k));
                    assert forall|i: int| 0 <= i < p.len() implies p[i] < after.len() && after[p[i] as int]
                        == groups@[a].account_type@ by {
                        if i < old_positions.len() {
                            assert(p[i] == old_positions[i]);
                        }
                    }
                    assert forall|i: int, i2: int| 0 <= i < i2 < p.len() implies p[i] < p[i2] by {
                        if i2 < old_positions.len() {
                            assert(p[i] == old_positions[i]);
                            assert(p[i2] == old_positions[i2]);
                        } else {
                            assert(p[i] == old_positions[i]);
                        }
                    }
                } else {
                    assert(groups@[a] == old_groups[a]);
                }
            }
            assert forall|m: int| #![trigger after[m]] 0 <= m < after.len() implies exists|a: int|
                0 <= a < groups@.len() && #[trigger] groups@[a].account_type@ == after[m] && groups@[a].positions@.contains(m as usize) by {
                if m < k {
                    let a = choose|a: int| 0 <= a < old_groups.len() && #[trigger] old_groups[a].account_type@ == before[m]
                        && old_groups[a].positions@.contains(m as usize);
                    if a == j {
                        let i = choose|i: int| 0 <= i < old_positions.len() && old_positions[i] == m as usize;
                        assert(groups@[a].positions@[i] == m as usize);
                    } else {
                        assert(groups@[a] == old_groups[a]);
                    }
                    assert(groups@[a].account_type@ == after[m]);
                } else {
                    assert(groups@[j as int].positions@[old_positions.len() as int] == k);
                    assert(groups@[j as int].account_type@ == after[m]);
                }
            }
        } else {
            let mut positions = Vec::new();
            positions.push(k);
            groups.push(TypeGroup { account_type: types[k].clone(), positions });
            let ghost ng: int = groups@.len() - 1;
            assert forall|a: int, b: int| 0 <= a < b < groups@.len() implies groups@[a].account_type@
                != groups@[b].account_type@ by {
                assert(groups@[a] == old_groups[a]);
                if b < ng {
                    assert(groups@[b] == old_groups[b]);
                }
            }
            assert forall|a: int| 0 <= a < groups@.len() implies {
                let p = #[trigger] groups@[a].positions@;
                &&& p.len() > 0
                &&& forall|i: int, i2: int| 0 <= i < i2 < p.len() ==> p[i] < p[i2]
                &&& forall|i: int| 0 <= i < p.len() ==> p[i] < after.len() && after[p[i] as int] == groups@[a].account_type@
            } by {
                if a < ng {
                    assert(groups@[a] == old_groups[a]);
                }
            }
            assert forall|m: int| #![trigger after[m]] 0 <= m < after.len() implies exists|a: int|
                0 <= a < groups@.len() && #[trigger] groups@[a].account_type@ == after[m] && groups@[a].positions@.contains(m as usize) by {
                if m < k {
                    let a = choose|a: int| 0 <= a < old_groups.len() && #[trigger] old_groups[a].account_type@ == before[m]
                        && old_groups[a].positions@.contains(m as usize);
                    assert(groups@[a] == old_groups[a]);
                } else {
                    assert(groups@[ng].positions@[0] == k);
                }
            }
        }
        k = k + 1;
    }
    assert(crate::text::views(types@) =~= crate::text::views(types@).take(k as int));
    groups
}

} // verus!

use vstd::prelude::*;
use crate::auth::opt_view;
use crate::dates::{CalendarDate, date_error_text, parse_date, ymd_date};
use crate::errors::{AppError, draft_error};
use crate::text::{trim_text, trimmed};
use crate::torpor::{Torpor, torpor_from_form, torpor_months_of};

verus! {

// ---------------------------------------------------------------------------
// The description link
// ---------------------------------------------------------------------------

/// A description link as stored: trimmed, and absent when nothing is left.
pub open spec fn normalized_url(url: Option<Seq<char>>) -> Option<Seq<char>> {
    match url {
        Some(u) => if trimmed(u).len() > 0 { Some(trimmed(u)) } else { None },
        None => None,
    }
}

/// Trims a submitted description link and drops it when it is blank.
pub fn normalize_description_url(url: Option<String>) -> (r: Option<String>)
    ensures
        opt_view(r) == normalized_url(opt_view(url)),
{
    match url {
        Some(u) => {
            let t = trim_text(u.as_str());
            if t.unicode_len() > 0 {
                Some(t)
            } else {
                None
            }
        },
        None => None,
    }
}

// ---------------------------------------------------------------------------
// Creating a character (by its player)
// ---------------------------------------------------------------------------

/// The form a player fills in to create a character.
pub struct CreateCharacterForm {
    pub name: Option<String>,
    pub apparent_age: Option<i32>,
    pub date_embraced: Option<String>,
    pub torpor_years: Option<i32>,
    pub torpor_months: Option<i32>,
    pub torpor_days: Option<i32>,
    pub clan_id: Option<i64>,
    pub character_description_url: Option<String>,
}

/// A character ready to be stored as a draft.
pub struct NewCharacter {
    pub name: String,
    pub apparent_age: i32,
    pub date_embraced: CalendarDate,
    pub torpor: Torpor,
    pub clan_id: i64,
    pub character_description_url: Option<String>,
}

/// The message for a date field that did not read.
pub open spec fn date_failure_text(outcome: Result<(i32, u8, u8), (bool, Seq<char>)>) -> Seq<char> {
    match outcome {
        Err((k, msg)) => date_error_text(k, msg),
        Ok(_) => Seq::empty(),
    }
}

/// The date field was read as `d`.
pub open spec fn read_date(text: Seq<char>, d: CalendarDate) -> bool {
    ymd_date(text) == Ok::<(i32, u8, u8), (bool, Seq<char>)>((d.year, d.month, d.day))
}

/// A player's new character: each required field in turn must be present
/// (name, apparent age, date of embrace, clan) and the date must read as a
/// date; the first failure is reported.
pub open spec fn character_fields_spec(form: CreateCharacterForm, r: Result<NewCharacter, AppError>) -> bool {
    if form.name is None {
        draft_error(r, "Missing name"@)
    } else if form.apparent_age is None {
        draft_error(r, "Missing apparent_age"@)
    } else if form.date_embraced is None {
        draft_error(r, "Missing date_embraced"@)
    } else if ymd_date(form.date_embraced->0@) is Err {
        draft_error(r, date_failure_text(ymd_date(form.date_embraced->0@)))
    } else if form.clan_id is None {
        draft_error(r, "Missing clan_id"@)
    } else {
        r matches Ok(c) && {
            &&& c.name@ == form.name->0@
            &&& c.apparent_age == form.apparent_age->0
            &&& read_date(form.date_embraced->0@, c.date_embraced)
            &&& c.torpor.months == torpor_months_of(form.torpor_years, form.torpor_months)
            &&& c.torpor.days == (match form.torpor_days { Some(d) => d, None => 0i32 })
            &&& c.clan_id == form.clan_id->0
            &&& opt_view(c.character_description_url) == normalized_url(opt_view(form.character_description_url))
        }
    }
}

/// Checks a player's form for a new character.
pub fn character_fields(form: CreateCharacterForm) -> (r: Result<NewCharacter, AppError>)
    ensures
        character_fields_spec(form, r),
{
    let ghost f = form;
    let CreateCharacterForm {
        name,
        apparent_age,
        date_embraced,
        torpor_years,
        torpor_months,
        torpor_days,
        clan_id,
        character_description_url,
    } = form;
    let character_description_url = normalize_description_url(character_description_url);
    let name = match name {
        Some(n) => n,
        None => return Err(AppError::InvalidDraft("Missing name".to_owned())),
    };
    let apparent_age = match apparent_age {
        Some(a) => a,
        None => return Err(AppError::InvalidDraft("Missing apparent_age".to_owned())),
    };
    let date_text = match date_embraced {
        Some(d) => d,
        None => return Err(AppError::InvalidDraft("Missing date_embraced".to_owned())),
    };
    let date_embraced = match parse_date(date_text.as_str()) {
        Ok(d) => d,
        Err(e) => return Err(e),
    };
    let torpor = torpor_from_form(torpor_years, torpor_months, torpor_days);
    let clan_id = match clan_id {
        Some(c) => c,
        None => return Err(AppError::InvalidDraft("Missing clan_id".to_owned())),
    };
    Ok(NewCharacter { name, apparent_age, date_embraced, torpor, clan_id, character_description_url })
}

// ---------------------------------------------------------------------------
// The storyteller's character form
// ---------------------------------------------------------------------------

/// The form on the storyteller's character pages: it creates, updates,
/// reviews or approves, as its `action` says.
pub struct CharacterForm {
    pub action: Option<String>,
    pub user_id: Option<i64>,
    pub name: Option<String>,
    pub apparent_age: Option<i32>,
    pub date_embraced: Option<String>,
    pub torpor_years: Option<i32>,
    pub torpor_months: Option<i32>,
    pub torpor_days: Option<i32>,
    pub clan_id: Option<i64>,
    pub character_description_url: Option<String>,
    pub status: Option<String>,
    pub review_kind: Option<String>,
    pub usage_id: Option<i64>,
    pub decision: Option<String>,
    pub bp_change: Option<i32>,
    pub bp_note: Option<String>,
}

/// A character as the storyteller stores it.
pub struct CharacterFields {
    pub user_id: i64,
    pub name: String,
    pub apparent_age: i32,
    pub date_embraced: CalendarDate,
    pub torpor: Torpor,
    pub clan_id: i64,
    pub status: String,
    pub character_description_url: Option<String>,
}

/// The storyteller's character fields: owner, name, apparent age, date of
/// embrace and clan must be present in that order and the date must read;
/// the status defaults to draft and is stored as given.
pub open spec fn character_form_spec(form: CharacterForm, r: Result<CharacterFields, AppError>) -> bool {
    if form.user_id is None {
        draft_error(r, "Missing user_id"@)
    } else if form.name is None {
        draft_error(r, "Missing name"@)
    } else if form.apparent_age is None {
        draft_error(r, "Missing apparent_age"@)
    } else if form.date_embraced is None {
        draft_error(r, "Missing date_embraced"@)
    } else if ymd_date(form.date_embraced->0@) is Err {
        draft_error(r, date_failure_text(ymd_date(form.date_embraced->0@)))
    } else if form.clan_id is None {
        draft_error(r, "Missing clan_id"@)
    } else {
        r matches Ok(c) && {
            &&& c.user_id == form.user_id->0
            &&& c.name@ == form.name->0@
            &&& c.apparent_age == form.apparent_age->0
            &&& read_date(form.date_embraced->0@, c.date_embraced)
            &&& c.torpor.months == torpor_months_of(form.torpor_years, form.torpor_months)
            &&& c.torpor.days == (match form.torpor_days { Some(d) => d, None => 0i32 })
            &&& c.clan_id == form.clan_id->0
            &&& c.status@ == (match form.status { Some(s) => s@, None => "draft"@ })
            &&& opt_view(c.character_description_url) == normalized_url(opt_view(form.character_description_url))
        }
    }
}

/// Checks the storyteller's form for creating or updating a character.
pub fn character_form_fields(form: CharacterForm) -> (r: Result<CharacterFields, AppError>)
    ensures
        character_form_spec(form, r),
{
    let CharacterForm {
        action: _,
        user_id,
        name,
        apparent_age,
        date_embraced,
        torpor_years,
        torpor_months,
        torpor_days,
        clan_id,
        character_description_url,
        status,
        review_kind: _,
        usage_id: _,
        decision: _,
        bp_change: _,
        bp_note: _,
    } = form;
    let user_id = match user_id {
        Some(u) => u,
        None => return Err(AppError::InvalidDraft("Missing user_id".to_owned())),
    };
    let name = match name {
        Some(n) => n,
        None => return Err(AppError::InvalidDraft("Missing name".to_owned())),
    };
    let apparent_age = match apparent_age {
        Some(a) => a,
        None => return Err(AppError::InvalidDraft("Missing apparent_age".to_owned())),
    };
    let date_text = match date_embraced {
        Some(d) => d,
        None => return Err(AppError::InvalidDraft("Missing date_embraced".to_owned())),
    };
    let date_embraced = match parse_date(date_text.as_str()) {
        Ok(d) => d,
        Err(e) => return Err(e),
    };
    let torpor = torpor_from_form(torpor_years, torpor_months, torpor_days);
    let clan_id = match clan_id {
        Some(c) => c,
        None => return Err(AppError::InvalidDraft("Missing clan_id".to_owned())),
    };
    let status = match status {
        Some(s) => s,
        None => "draft".to_owned(),
    };
    let character_description_url = normalize_description_url(character_description_url);
    Ok(CharacterFields { user_id, name, apparent_age, date_embraced, torpor, clan_id, status, character_description_url })
}

} // verus!

verus! {

// ---------------------------------------------------------------------------
// The storyteller form at /admin/characters/{id}/ (with an "active" box)
// ---------------------------------------------------------------------------

/// The storyteller form for one character at /admin/characters/{id}/.
pub struct ActiveFlagCharacterForm {
    pub action: String,
    pub user_id: Option<i64>,
    pub name: Option<String>,
    pub apparent_age: Option<i32>,
    pub date_embraced: Option<String>,
    pub torpor_months: Option<i32>,
    pub torpor_days: Option<i32>,
    pub clan_id: Option<i64>,
    pub active: Option<String>,
    pub review_kind: Option<String>,
    pub usage_id: Option<i64>,
    pub decision: Option<String>,
}

/// A character as the form with the "active" box stores it.
pub struct ActiveFlagCharacterFields {
    pub user_id: i64,
    pub name: String,
    pub apparent_age: i32,
    pub date_embraced: CalendarDate,
    pub torpor: Torpor,
    pub clan_id: i64,
    pub active: bool,
}

/// The fields of the form with the "active" box: torpor is entered in months and days only, and
/// the character is active exactly when the box was sent.
pub open spec fn active_flag_form_spec(form: ActiveFlagCharacterForm, r: Result<ActiveFlagCharacterFields, AppError>) -> bool {
    if form.user_id is None {
        draft_error(r, "Missing user_id"@)
    } else if form.name is None {
        draft_error(r, "Missing name"@)
    } else if form.apparent_age is None {
        draft_error(r, "Missing apparent_age"@)
    } else if form.date_embraced is None {
        draft_error(r, "Missing date_embraced"@)
    } else if ymd_date(form.date_embraced->0@) is Err {
        draft_error(r, date_failure_text(ymd_date(form.date_embraced->0@)))
    } else if form.clan_id is None {
        draft_error(r, "Missing clan_id"@)
    } else {
        r matches Ok(c) && {
            &&& c.user_id == form.user_id->0
            &&& c.name@ == form.name->0@
            &&& c.apparent_age == form.apparent_age->0
            &&& read_date(form.date_embraced->0@, c.date_embraced)
            &&& c.torpor.months == (match form.torpor_months { Some(m) => m, None => 0i32 })
            &&& c.torpor.days == (match form.torpor_days { Some(d) => d, None => 0i32 })
            &&& c.clan_id == form.clan_id->0
            &&& c.active == form.active is Some
        }
    }
}

/// Checks the form with the "active" box for updating a character.
pub fn active_flag_character_fields(form: ActiveFlagCharacterForm) -> (r: Result<ActiveFlagCharacterFields, AppError>)
    ensures
        active_flag_form_spec(form, r),
{
    let ActiveFlagCharacterForm {
        action: _,
        user_id,
        name,
        apparent_age,
        date_embraced,
        torpor_months,
        torpor_days,
        clan_id,
        active,
        review_kind: _,
        usage_id: _,
        decision: _,
    } = form;
    let user_id = match user_id {
        Some(u) => u,
        None => return Err(AppError::InvalidDraft("Missing user_id".to_owned())),
    };
    let name = match name {
        Some(n) => n,
        None => return Err(AppError::InvalidDraft("Missing name".to_owned())),
    };
    let apparent_age = match apparent_age {
        Some(a) => a,
        None => return Err(AppError::InvalidDraft("Missing apparent_age".to_owned())),
    };
    let date_text = match date_embraced {
        Some(d) => d,
        None => return Err(AppError::InvalidDraft("Missing date_embraced".to_owned())),
    };
    let date_embraced = match parse_date(date_text.as_str()) {
        Ok(d) => d,
        Err(e) => return Err(e),
    };
    let torpor = torpor_from_form(None, torpor_months, torpor_days);
    let clan_id = match clan_id {
        Some(c) => c,
        None => return Err(AppError::InvalidDraft("Missing clan_id".to_owned())),
    };
    Ok(ActiveFlagCharacterFields { user_id, name, apparent_age, date_embraced, torpor, clan_id, active: active.is_some() })
}

// ---------------------------------------------------------------------------
// Reviewing spent experience
// ---------------------------------------------------------------------------

/// What experience was spent on.
#[derive(Debug, Clone, Copy, PartialEq, Eq, Structural)]
pub enum UsageKind {
    Stat,
    Power,
    Influence,
    Humanity,
}

/// A storyteller's decision on one use of experience.
#[derive(Debug, Clone, Copy, PartialEq, Eq, Structural)]
pub struct ReviewPlan {
    pub kind: UsageKind,
    pub usage_id: i64,
    pub approved: bool,
}

/// The kind of usage named in a review form.
pub open spec fn usage_kind_named(kind: Seq<char>) -> Option<UsageKind> {
    if kind == "stat"@ {
        Some(UsageKind::Stat)
    } else if kind == "power"@ {
        Some(UsageKind::Power)
    } else if kind == "influence"@ {
        Some(UsageKind::Influence)
    } else if kind == "humanity"@ {
        Some(UsageKind::Humanity)
    } else {
        None
    }
}

/// A review form: the kind, the usage and the decision must be present in
/// that order; the decision must be "approve" or "reject", then the kind must
/// be one of "stat", "power", "influence" and "humanity".
pub open spec fn review_spec(
    kind: Option<Seq<char>>,
    usage_id: Option<i64>,
    decision: Option<Seq<char>>,
    r: Result<ReviewPlan, AppError>,
) -> bool {
    if kind is None {
        draft_error(r, "Missing review_kind"@)
    } else if usage_id is None {
        draft_error(r, "Missing usage_id"@)
    } else if decision is None {
        draft_error(r, "Missing decision"@)
    } else if decision->0 != "approve"@ && decision->0 != "reject"@ {
        draft_error(r, "Invalid review decision"@)
    } else if usage_kind_named(kind->0) is None {
        draft_error(r, "Invalid review kind"@)
    } else {
        r == Ok::<ReviewPlan, AppError>(ReviewPlan {
            kind: usage_kind_named(kind->0)->0,
            usage_id: usage_id->0,
            approved: decision->0 == "approve"@,
        })
    }
}

proof fn reveal_review_words()
    ensures
        "approve"@ != "reject"@,
        "stat"@ != "power"@,
        "stat"@ != "influence"@,
        "stat"@ != "humanity"@,
        "power"@ != "influence"@,
        "power"@ != "humanity"@,
        "influence"@ != "humanity"@,
{
    reveal_strlit("approve");
    reveal_strlit("reject");
    reveal_strlit("stat");
    reveal_strlit("power");
    reveal_strlit("influence");
    reveal_strlit("humanity");
    assert("approve"@.len() == 7);
    assert("reject"@.len() == 6);
    assert("stat"@.len() == 4);
    assert("power"@.len() == 5);
    assert("influence"@.len() == 9);
    assert("humanity"@.len() == 8);
}

/// Reads a review form.
pub fn plan_review(kind: Option<String>, usage_id: Option<i64>, decision: Option<String>) -> (r: Result<ReviewPlan, AppError>)
    ensures
        review_spec(opt_view(kind), usage_id, opt_view(decision), r),
{
    proof {
        reveal_review_words();
    }
    let kind = match kind {
        Some(k) => k,
        None => return Err(AppError::InvalidDraft("Missing review_kind".to_owned())),
    };
    let usage_id = match usage_id {
        Some(u) => u,
        None => return Err(AppError::InvalidDraft("Missing usage_id".to_owned())),
    };
    let decision = match decision {
        Some(d) => d,
        None => return Err(AppError::InvalidDraft("Missing decision".to_owned())),
    };
    let approved = if crate::text::text_eq(decision.as_str(), "approve") {
        true
    } else if crate::text::text_eq(decision.as_str(), "reject") {
        false
    } else {
        return Err(AppError::InvalidDraft("Invalid review decision".to_owned()));
    };
    let kind = if crate::text::text_eq(kind.as_str(), "stat") {
        UsageKind::Stat
    } else if crate::text::text_eq(kind.as_str(), "power") {
        UsageKind::Power
    } else if crate::text::text_eq(kind.as_str(), "influence") {
        UsageKind::Influence
    } else if crate::text::text_eq(kind.as_str(), "humanity") {
        UsageKind::Humanity
    } else {
        return Err(AppError::InvalidDraft("Invalid review kind".to_owned()));
    };
    Ok(ReviewPlan { kind, usage_id, approved })
}

/// The table that records the reviews of a kind of usage, and its column
/// naming the reviewed usage.
pub open spec fn review_table_of(kind: UsageKind) -> (Seq<char>, Seq<char>) {
    match kind {
        UsageKind::Stat => ("stat_raise_review"@, "stat_raise_id"@),
        UsageKind::Power => ("power_raise_review"@, "power_raise_id"@),
        UsageKind::Influence => ("influence_raise_review"@, "influence_raise_id"@),
        UsageKind::Humanity => ("humanity_change_review"@, "humanity_change_id"@),
    }
}

impl UsageKind {
    /// Where a review of this kind of usage is recorded: the table and the
    /// column naming the usage.
    pub fn review_table(&self) -> (r: (&'static str, &'static str))
        ensures
            (r.0@, r.1@) == review_table_of(*self),
    {
        match self {
            UsageKind::Stat => ("stat_raise_review", "stat_raise_id"),
            UsageKind::Power => ("power_raise_review", "power_raise_id"),
            UsageKind::Influence => ("influence_raise_review", "influence_raise_id"),
            UsageKind::Humanity => ("humanity_change_review", "humanity_change_id"),
        }
    }
}

impl ReviewPlan {
    /// The review state stored for the decision.
    pub fn state_text(&self) -> (r: &'static str)
        ensures
            r@ == (if self.approved { "approved"@ } else { "denied"@ }),
    {
        if self.approved {
            "approved"
        } else {
            "denied"
        }
    }
}

/// A review is recorded only if the usage had no review yet: exactly one row
/// must have been written.
pub fn check_review_recorded(rows_affected: u64) -> (r: Result<(), AppError>)
    ensures
        rows_affected == 1 ==> r == Ok::<(), AppError>(()),
        rows_affected != 1 ==> draft_error(r, "That XP usage has already been reviewed"@),
{
    if rows_affected != 1 {
        Err(AppError::InvalidDraft("That XP usage has already been reviewed".to_owned()))
    } else {
        Ok(())
    }
}

} // verus!

verus! {

// ---------------------------------------------------------------------------
// Form actions
// ---------------------------------------------------------------------------

/// What a storyteller's post on one character asks for.
#[derive(Debug, Clone, Copy, PartialEq, Eq, Structural)]
pub enum CharacterAction {
    Update,
    Review,
    Approve,
}

proof fn reveal_action_words()
    ensures
        "update"@ != "review"@,
        "update"@ != "approve"@,
        "review"@ != "approve"@,
{
    reveal_strlit("update");
    reveal_strlit("review");
    reveal_strlit("approve");
    assert("update"@[0] != "review"@[0]);
    assert("update"@.len() != "approve"@.len());
    assert("review"@.len() != "approve"@.len());
}

/// The action of a post on one character; without one, it is a review.
pub open spec fn character_action_spec(action: Option<Seq<char>>, r: Result<CharacterAction, AppError>) -> bool {
    let a = match action { Some(a) => a, None => "review"@ };
    if a == "update"@ {
        r == Ok::<CharacterAction, AppError>(CharacterAction::Update)
    } else if a == "review"@ {
        r == Ok::<CharacterAction, AppError>(CharacterAction::Review)
    } else if a == "approve"@ {
        r == Ok::<CharacterAction, AppError>(CharacterAction::Approve)
    } else {
        draft_error(r, "Unknown character action"@)
    }
}

/// Reads the action of a post on one character.
pub fn character_action(action: Option<&str>) -> (r: Result<CharacterAction, AppError>)
    ensures
        character_action_spec(match action { Some(a) => Some(a@), None => None }, r),
{
    proof {
        reveal_action_words();
    }
    let a = match action {
        Some(a) => a,
        None => "review",
    };
    if crate::text::text_eq(a, "update") {
        Ok(CharacterAction::Update)
    } else if crate::text::text_eq(a, "review") {
        Ok(CharacterAction::Review)
    } else if crate::text::text_eq(a, "approve") {
        Ok(CharacterAction::Approve)
    } else {
        Err(AppError::InvalidDraft("Unknown character action".to_owned()))
    }
}

/// Whether a post to the character list asks to create a character (the
/// only action there).
pub fn is_create_action(action: Option<&str>) -> (r: Result<(), AppError>)
    ensures
        (action matches Some(a) && a@ == "create"@) ==> r == Ok::<(), AppError>(()),
        !(action matches Some(a) && a@ == "create"@) ==> draft_error(r, "Unknown character action"@),
{
    let a = match action {
        Some(a) => a,
        None => "",
    };
    proof {
        reveal_strlit("");
        reveal_strlit("create");
        assert(""@.len() != "create"@.len());
    }
    if crate::text::text_eq(a, "create") {
        Ok(())
    } else {
        Err(AppError::InvalidDraft("Unknown character action".to_owned()))
    }
}

/// The action of a post to the form with the "active" box: update or review.
pub fn active_flag_character_action(action: &str) -> (r: Result<CharacterAction, AppError>)
    ensures
        action@ == "update"@ ==> r == Ok::<CharacterAction, AppError>(CharacterAction::Update),
        action@ == "review"@ ==> r == Ok::<CharacterAction, AppError>(CharacterAction::Review),
        action@ != "update"@ && action@ != "review"@ ==> draft_error(r, "Unknown character action"@),
{
    proof {
        reveal_action_words();
    }
    if crate::text::text_eq(action, "update") {
        Ok(CharacterAction::Update)
    } else if crate::text::text_eq(action, "review") {
        Ok(CharacterAction::Review)
    } else {
        Err(AppError::InvalidDraft("Unknown character action".to_owned()))
    }
}

/// The role chosen in the user form: "user" or "storyteller".
pub fn role_choice(role: &str) -> (r: Result<crate::roles::Role, AppError>)
    ensures
        role@ == "user"@ ==> r == Ok::<crate::roles::Role, AppError>(crate::roles::Role::User),
        role@ == "storyteller"@ ==> r == Ok::<crate::roles::Role, AppError>(crate::roles::Role::Storyteller),
        role@ != "user"@ && role@ != "storyteller"@ ==> draft_error(r, "Invalid role"@),
{
    proof {
        reveal_strlit("user");
        reveal_strlit("storyteller");
        assert("user"@.len() != "storyteller"@.len());
    }
    if crate::text::text_eq(role, "user") {
        Ok(crate::roles::Role::User)
    } else if crate::text::text_eq(role, "storyteller") {
        Ok(crate::roles::Role::Storyteller)
    } else {
        Err(AppError::InvalidDraft("Invalid role".to_owned()))
    }
}

/// Whether the `saved` query parameter asks for the saved notice: only the
/// value "1" does.
pub fn saved_flag(value: Option<&str>) -> (r: bool)
    ensures
        r == (value matches Some(v) && v@ == "1"@),
{
    match value {
        Some(v) => crate::text::text_eq(v, "1"),
        None => false,
    }
}

} // verus!

verus! {

// ---------------------------------------------------------------------------
// Laws of the forms
// ---------------------------------------------------------------------------

/// An accepted review is recorded for the kind of usage the form names, for
/// the usage it names, with the decision it names: "stat", "power",
/// "influence" and "humanity" give the stat, power, influence and humanity
/// kinds, whose reviews go to `stat_raise_review`, `power_raise_review`,
/// `influence_raise_review` and `humanity_change_review`.
pub proof fn lemma_review_records_the_named_kind(
    kind: Seq<char>,
    usage_id: Option<i64>,
    decision: Option<Seq<char>>,
    r: Result<ReviewPlan, AppError>,
)
    requires
        review_spec(Some(kind), usage_id, decision, r),
        r is Ok,
    ensures
        r matches Ok(p) && {
            &&& kind == "stat"@ ==> p.kind == UsageKind::Stat && review_table_of(p.kind).0 == "stat_raise_review"@
            &&& kind == "power"@ ==> p.kind == UsageKind::Power && review_table_of(p.kind).0 == "power_raise_review"@
            &&& kind == "influence"@ ==> p.kind == UsageKind::Influence && review_table_of(p.kind).0
                == "influence_raise_review"@
            &&& kind == "humanity"@ ==> p.kind == UsageKind::Humanity && review_table_of(p.kind).0
                == "humanity_change_review"@
            &&& kind == "stat"@ || kind == "power"@ || kind == "influence"@ || kind == "humanity"@
            &&& usage_id == Some(p.usage_id)
            &&& p.approved <==> decision == Some("approve"@)
        },
{
    reveal_review_words();
}

/// The description link a character form stores is the submitted link with
/// leading and trailing white space removed, and no link at all when the
/// field is missing or holds only white space.
pub open spec fn stores_trimmed_link(submitted: Option<String>, stored: Option<String>) -> bool {
    match submitted {
        None => stored is None,
        Some(u) => if crate::text::trimmed(u@).len() == 0 {
            stored is None
        } else {
            stored matches Some(v) && v@ == crate::text::trimmed(u@)
        },
    }
}

/// The storyteller's form stores the description link trimmed, and drops a
/// blank one.
pub proof fn lemma_storyteller_form_trims_the_link(form: CharacterForm, r: Result<CharacterFields, AppError>)
    requires
        character_form_spec(form, r),
        r is Ok,
    ensures
        r matches Ok(c) && stores_trimmed_link(form.character_description_url, c.character_description_url),
{
}

/// The player's form stores the description link trimmed, and drops a blank
/// one.
pub proof fn lemma_player_form_trims_the_link(form: CreateCharacterForm, r: Result<NewCharacter, AppError>)
    requires
        character_fields_spec(form, r),
        r is Ok,
    ensures
        r matches Ok(c) && stores_trimmed_link(form.character_description_url, c.character_description_url),
{
}

} // verus!

verus! {

/// The torpor months a form's years and months come to, when the sum fits
/// in 32 bits: twelve per year plus the months, a missing field counting as
/// zero.
pub open spec fn fits_torpor(years: Option<i32>, months: Option<i32>, total: i32) -> bool {
    let y: int = match years { Some(y) => y as int, None => 0 };
    let m: int = match months { Some(m) => m as int, None => 0 };
    i32::MIN <= 12 * y + m <= i32::MAX ==> total == 12 * y + m
}

/// The storyteller's form is accepted exactly when owner, name, apparent
/// age, date of embrace and clan are all given and the date reads; the
/// accepted character holds what was submitted, with the status "draft" when
/// none was given and the torpor time in months and days.
pub proof fn lemma_storyteller_form_keeps_the_fields(form: CharacterForm, r: Result<CharacterFields, AppError>)
    requires
        character_form_spec(form, r),
    ensures
        r is Ok <==> (form.user_id is Some && form.name is Some && form.apparent_age is Some
            && form.date_embraced is Some && ymd_date(form.date_embraced->0@) is Ok && form.clan_id is Some),
        r matches Err(e) ==> e is InvalidDraft,
        r matches Ok(c) ==> {
            &&& Some(c.user_id) == form.user_id
            &&& form.name matches Some(n) && c.name@ == n@
            &&& Some(c.apparent_age) == form.apparent_age
            &&& Some(c.clan_id) == form.clan_id
            &&& ymd_date(form.date_embraced->0@) == Ok::<(i32, u8, u8), (bool, Seq<char>)>(
                (c.date_embraced.year, c.date_embraced.month, c.date_embraced.day),
            )
            &&& c.status@ == (match form.status { Some(s) => s@, None => "draft"@ })
            &&& fits_torpor(form.torpor_years, form.torpor_months, c.torpor.months)
            &&& c.torpor.days == (match form.torpor_days { Some(d) => d, None => 0 })
        },
{
    assert(r is Ok ==> fits_torpor(form.torpor_years, form.torpor_months, r->Ok_0.torpor.months)) by {
        if r is Ok {
            let y: i32 = match form.torpor_years { Some(y) => y, None => 0 };
            let m: i32 = match form.torpor_months { Some(m) => m, None => 0 };
            let t = r->Ok_0.torpor.months;
            assert(t == y.wrapping_mul(12).wrapping_add(m));
            if i32::MIN <= 12 * y + m <= i32::MAX {
                assert(t == 12 * y + m) by (bit_vector)
                    requires
                        t == y.wrapping_mul(12).wrapping_add(m),
                        i32::MIN <= 12 * y + m <= i32::MAX,
                ;
            }
        }
    }
}

/// A player's form is accepted exactly when name, apparent age, date of
/// embrace and clan are all given and the date reads; the accepted character
/// holds what was submitted, with the torpor time in months and days.
pub proof fn lemma_player_form_keeps_the_fields(form: CreateCharacterForm, r: Result<NewCharacter, AppError>)
    requires
        character_fields_spec(form, r),
    ensures
        r is Ok <==> (form.name is Some && form.apparent_age is Some && form.date_embraced is Some
            && ymd_date(form.date_embraced->0@) is Ok && form.clan_id is Some),
        r matches Err(e) ==> e is InvalidDraft,
        r matches Ok(c) ==> {
            &&& form.name matches Some(n) && c.name@ == n@
            &&& Some(c.apparent_age) == form.apparent_age
            &&& Some(c.clan_id) == form.clan_id
            &&& ymd_date(form.date_embraced->0@) == Ok::<(i32, u8, u8), (bool, Seq<char>)>(
                (c.date_embraced.year, c.date_embraced.month, c.date_embraced.day),
            )
            &&& fits_torpor(form.torpor_years, form.torpor_months, c.torpor.months)
            &&& c.torpor.days == (match form.torpor_days { Some(d) => d, None => 0 })
        },
{
    assert(r is Ok ==> fits_torpor(form.torpor_years, form.torpor_months, r->Ok_0.torpor.months)) by {
        if r is Ok {
            let y: i32 = match form.torpor_years { Some(y) => y, None => 0 };
            let m: i32 = match form.torpor_months { Some(m) => m, None => 0 };
            let t = r->Ok_0.torpor.months;
            assert(t == y.wrapping_mul(12).wrapping_add(m));
            if i32::MIN <= 12 * y + m <= i32::MAX {
                assert(t == 12 * y + m) by (bit_vector)
                    requires
                        t == y.wrapping_mul(12).wrapping_add(m),
                        i32::MIN <= 12 * y + m <= i32::MAX,
                ;
            }
        }
    }
}

} // verus!

use chronicle::dates::{date_field_result, parse_date, CalendarDate, DateError};
use chronicle::errors::AppError;
use chronicle::forms::{
    character_action, character_fields, character_form_fields, is_create_action,
    active_flag_character_action, active_flag_character_fields, normalize_description_url, plan_review,
    role_choice, saved_flag, CharacterAction, CharacterForm, CreateCharacterForm,
    ActiveFlagCharacterForm, ReviewPlan, UsageKind, check_review_recorded,
};
use chronicle::roles::Role;
use chronicle::settings::{max_content_len_from, post_login_redirect_url};
use chronicle::torpor::{fmt_torpor, torpor_from_form, Torpor};
use chronicle::urls::{
    check_description_url, check_description_url_status, host_check_result, unreachable_url_error,
};

fn draft(msg: &str) -> AppError {
    AppError::InvalidDraft(msg.to_string())
}

fn player_form() -> CreateCharacterForm {
    CreateCharacterForm {
        name: Some("Vera".into()),
        apparent_age: Some(30),
        date_embraced: Some("1889-03-14".into()),
        torpor_years: Some(2),
        torpor_months: Some(3),
        torpor_days: None,
        clan_id: Some(4),
        character_description_url: Some("  https://docs.example/vera  ".into()),
    }
}

#[test]
fn dates_are_read_as_year_month_day() {
    assert_eq!(parse_date("1889-03-14"), Ok(CalendarDate { year: 1889, month: 3, day: 14 }));
    assert_eq!(parse_date("2024-02-29"), Ok(CalendarDate { year: 2024, month: 2, day: 29 }));
    match parse_date("2023-02-29") {
        Err(AppError::InvalidDraft(m)) => assert!(m.starts_with("Invalid date: "), "{m}"),
        other => panic!("{other:?}"),
    }
    match parse_date("14/03/1889") {
        Err(AppError::InvalidDraft(m)) => assert!(m.starts_with("Invalid date: "), "{m}"),
        other => panic!("{other:?}"),
    }
}

#[test]
fn player_form_is_accepted() {
    let c = character_fields(player_form()).unwrap();
    assert_eq!(c.name, "Vera");
    assert_eq!(c.apparent_age, 30);
    assert_eq!(c.date_embraced, CalendarDate { year: 1889, month: 3, day: 14 });
    assert_eq!(c.torpor, Torpor { months: 27, days: 0 });
    assert_eq!(c.clan_id, 4);
    assert_eq!(c.character_description_url.as_deref(), Some("https://docs.example/vera"));
}

#[test]
fn player_form_reports_the_first_missing_field() {
    let mut f = player_form();
    f.name = None;
    f.clan_id = None;
    assert_eq!(character_fields(f).err(), Some(draft("Missing name")));
    let mut f = player_form();
    f.apparent_age = None;
    assert_eq!(character_fields(f).err(), Some(draft("Missing apparent_age")));
    let mut f = player_form();
    f.date_embraced = None;
    assert_eq!(character_fields(f).err(), Some(draft("Missing date_embraced")));
    let mut f = player_form();
    f.clan_id = None;
    assert_eq!(character_fields(f).err(), Some(draft("Missing clan_id")));
    let mut f = player_form();
    f.date_embraced = Some("yesterday".into());
    f.clan_id = None;
    assert!(matches!(character_fields(f), Err(AppError::InvalidDraft(m)) if m.starts_with("Invalid date: ")));
}

#[test]
fn blank_description_url_is_dropped() {
    assert_eq!(normalize_description_url(Some(" \t".into())), None);
    assert_eq!(normalize_description_url(None), None);
    assert_eq!(normalize_description_url(Some(" a ".into())), Some("a".to_string()));
}

fn admin_form() -> CharacterForm {
    CharacterForm {
        action: Some("update".into()),
        user_id: Some(9),
        name: Some("Ivo".into()),
        apparent_age: Some(40),
        date_embraced: Some("1950-01-01".into()),
        torpor_years: None,
        torpor_months: Some(5),
        torpor_days: Some(6),
        clan_id: Some(2),
        character_description_url: None,
        status: None,
        review_kind: None,
        usage_id: None,
        decision: None,
        bp_change: None,
        bp_note: None,
    }
}

#[test]
fn storyteller_form_defaults_to_draft() {
    let c = character_form_fields(admin_form()).unwrap();
    assert_eq!(c.user_id, 9);
    assert_eq!(c.status, "draft");
    assert_eq!(c.torpor, Torpor { months: 5, days: 6 });
    let mut f = admin_form();
    f.status = Some("active".into());
    assert_eq!(character_form_fields(f).unwrap().status, "active");
    let mut f = admin_form();
    f.user_id = None;
    f.name = None;
    assert_eq!(character_form_fields(f).err(), Some(draft("Missing user_id")));
}

#[test]
fn active_flag_form_reads_the_active_box() {
    let f = ActiveFlagCharacterForm {
        action: "update".into(),
        user_id: Some(1),
        name: Some("N".into()),
        apparent_age: Some(20),
        date_embraced: Some("2000-12-31".into()),
        torpor_months: Some(13),
        torpor_days: None,
        clan_id: Some(3),
        active: Some("on".into()),
        review_kind: None,
        usage_id: None,
        decision: None,
    };
    let c = active_flag_character_fields(f).unwrap();
    assert!(c.active);
    assert_eq!(c.torpor, Torpor { months: 13, days: 0 });
}

#[test]
fn torpor_is_shown_without_zero_parts() {
    assert_eq!(fmt_torpor(&Torpor { months: 0, days: 0 }), "0 dagar");
    assert_eq!(fmt_torpor(&Torpor { months: 14, days: 3 }), "1 år, 2 månader, 3 dagar");
    assert_eq!(fmt_torpor(&Torpor { months: 12, days: 0 }), "1 år");
    assert_eq!(fmt_torpor(&Torpor { months: 5, days: 0 }), "5 månader");
    assert_eq!(fmt_torpor(&Torpor { months: 0, days: 9 }), "9 dagar");
    assert_eq!(fmt_torpor(&Torpor { months: 36, days: 1 }), "3 år, 1 dagar");
    assert_eq!(fmt_torpor(&Torpor { months: -5, days: -1 }), "0 dagar");
}

#[test]
fn torpor_from_years_months_and_days() {
    assert_eq!(torpor_from_form(Some(2), Some(3), Some(4)), Torpor { months: 27, days: 4 });
    assert_eq!(torpor_from_form(None, None, None), Torpor { months: 0, days: 0 });
    assert_eq!(torpor_from_form(Some(i32::MAX), Some(0), None).months, i32::MAX.wrapping_mul(12));
}

#[test]
fn reviews() {
    let s = |x: &str| Some(x.to_string());
    assert_eq!(
        plan_review(s("power"), Some(8), s("approve")),
        Ok(ReviewPlan { kind: UsageKind::Power, usage_id: 8, approved: true })
    );
    let p = plan_review(s("humanity"), Some(1), s("reject")).unwrap();
    assert_eq!(p.kind, UsageKind::Humanity);
    assert_eq!(p.state_text(), "denied");
    assert_eq!(plan_review(None, None, None).err(), Some(draft("Missing review_kind")));
    assert_eq!(plan_review(s("stat"), None, None).err(), Some(draft("Missing usage_id")));
    assert_eq!(plan_review(s("stat"), Some(1), None).err(), Some(draft("Missing decision")));
    assert_eq!(plan_review(s("bogus"), Some(1), s("maybe")).err(), Some(draft("Invalid review decision")));
    assert_eq!(plan_review(s("bogus"), Some(1), s("approve")).err(), Some(draft("Invalid review kind")));
    assert_eq!(check_review_recorded(1), Ok(()));
    assert_eq!(check_review_recorded(0).err(), Some(draft("That XP usage has already been reviewed")));
}

#[test]
fn actions_and_roles() {
    assert_eq!(character_action(None), Ok(CharacterAction::Review));
    assert_eq!(character_action(Some("update")), Ok(CharacterAction::Update));
    assert_eq!(character_action(Some("approve")), Ok(CharacterAction::Approve));
    assert_eq!(character_action(Some("x")).err(), Some(draft("Unknown character action")));
    assert_eq!(is_create_action(Some("create")), Ok(()));
    assert_eq!(is_create_action(None).err(), Some(draft("Unknown character action")));
    assert_eq!(active_flag_character_action("review"), Ok(CharacterAction::Review));
    assert_eq!(active_flag_character_action("approve").err(), Some(draft("Unknown character action")));
    assert_eq!(role_choice("storyteller"), Ok(Role::Storyteller));
    assert_eq!(role_choice("user"), Ok(Role::User));
    assert_eq!(role_choice("admin").err(), Some(draft("Invalid role")));
    assert!(saved_flag(Some("1")));
    assert!(!saved_flag(Some("01")));
    assert!(!saved_flag(None));
}

#[test]
fn description_links() {
    assert_eq!(check_description_url("http://x.se/a").err(), Some(draft("URL must use HTTPS")));
    assert_eq!(check_description_url("https://docs.example/v"), Ok(()));
    assert!(matches!(check_description_url("https://"), Err(AppError::InvalidDraft(m)) if m.starts_with("Invalid URL: ")));
    assert_eq!(check_description_url_status(200), Ok(()));
    assert_eq!(check_description_url_status(299), Ok(()));
    assert_eq!(
        check_description_url_status(404).err(),
        Some(draft("URL returned status 404 — the document may not be publicly accessible"))
    );
    assert_eq!(unreachable_url_error("timeout"), draft("Could not reach URL: timeout"));
}

#[test]
fn settings() {
    assert_eq!(max_content_len_from("65536"), Some(65536));
    assert_eq!(max_content_len_from("64k"), None);
    assert_eq!(post_login_redirect_url("https://site".into()), "https://site/post-login");
}

#[test]
fn date_readings_become_form_answers() {
    let d = CalendarDate { year: 1999, month: 12, day: 31 };
    assert_eq!(date_field_result(Ok(d)), Ok(d));
    assert_eq!(
        date_field_result(Err(DateError::InvalidDate("day out of range".into()))),
        Err(draft("Invalid date: day out of range"))
    );
    assert_eq!(
        date_field_result(Err(DateError::InvalidFormat("bad item".into()))),
        Err(draft("Invalid date format: bad item"))
    );
}

#[test]
fn link_parses_become_answers() {
    assert_eq!(host_check_result(Ok(true)), Ok(()));
    assert_eq!(host_check_result(Ok(false)), Err(draft("URL must have a host")));
    assert_eq!(host_check_result(Err("empty host".into())), Err(draft("Invalid URL: empty host")));
}

#[test]
fn reviews_are_recorded_per_kind() {
    assert_eq!(UsageKind::Stat.review_table(), ("stat_raise_review", "stat_raise_id"));
    assert_eq!(UsageKind::Power.review_table(), ("power_raise_review", "power_raise_id"));
    assert_eq!(UsageKind::Influence.review_table(), ("influence_raise_review", "influence_raise_id"));
    assert_eq!(UsageKind::Humanity.review_table(), ("humanity_change_review", "humanity_change_id"));
}

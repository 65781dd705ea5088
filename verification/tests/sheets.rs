use chronicle::errors::AppError;
use chronicle::roles::{shows_admin_link, CharacterStatus, Role, SessionData};
use chronicle::sheets::{
    check_can_spend, check_draft_op_recorded, collect_costs, collect_power_costs,
    escape_script_json, group_by_status, group_by_type, humanity_costs, power_raise_conflict,
    shows_create_form, CostRow, DraftOperation, HumanityCostRow, LevelCost, PowerCostRow,
};

#[test]
fn role_and_status_predicates() {
    assert!(Role::Storyteller.is_storyteller());
    assert!(!Role::User.is_storyteller());
    assert!(CharacterStatus::Active.is_active());
    assert!(CharacterStatus::Draft.is_draft());
    assert!(CharacterStatus::Inactive.is_inactive());
    assert!(!CharacterStatus::Draft.is_active());
    assert!(shows_admin_link(&Some(SessionData { user_id: 0, role: Role::Storyteller })));
    assert!(!shows_admin_link(&Some(SessionData { user_id: 1, role: Role::User })));
    assert!(!shows_admin_link(&None));
}

#[test]
fn characters_are_grouped_by_status_in_order() {
    let (a, d, i) = (CharacterStatus::Active, CharacterStatus::Draft, CharacterStatus::Inactive);
    let g = group_by_status(&vec![a, d, i, a, d]);
    assert_eq!(g.active, vec![0, 3]);
    assert_eq!(g.draft, vec![1, 4]);
    assert_eq!(g.inactive, vec![2]);
    assert!(!shows_create_form(&g));
    assert!(shows_create_form(&group_by_status(&vec![i])));
    assert!(shows_create_form(&group_by_status(&vec![])));
}

#[test]
fn spending_needs_an_active_character() {
    assert_eq!(check_can_spend(CharacterStatus::Active), Ok(()));
    assert_eq!(check_can_spend(CharacterStatus::Draft), Err(AppError::CharacterNotActive));
}

#[test]
fn draft_operation_messages() {
    let op = DraftOperation::Stat { stat: "strength".into(), increase: 1 };
    assert_eq!(check_draft_op_recorded(&op, 1), Ok(()));
    assert_eq!(
        check_draft_op_recorded(&op, 0),
        Err(AppError::InvalidDraft("Missing XP rule for stat 'strength'".into()))
    );
    let op = DraftOperation::Power { power: "dominate".into(), increase: 2 };
    assert_eq!(
        check_draft_op_recorded(&op, 2),
        Err(AppError::InvalidDraft("Missing XP rule for power 'dominate'".into()))
    );
    let op = DraftOperation::Influence { influence: "police".into(), increase: 1 };
    assert_eq!(
        check_draft_op_recorded(&op, 0),
        Err(AppError::InvalidDraft("Missing XP rule for influence 'police'".into()))
    );
    let op = DraftOperation::Humanity { change: -1, note: "n".into() };
    assert_eq!(
        check_draft_op_recorded(&op, 0),
        Err(AppError::InvalidDraft("Missing XP rule for humanity change".into()))
    );
    assert_eq!(
        power_raise_conflict(Some("23514")),
        Some(AppError::InvalidDraft(
            "Det finns redan en pågående höjning för denna kraft som väntar på granskning".into()
        ))
    );
    assert_eq!(power_raise_conflict(Some("23505")), None);
    assert_eq!(power_raise_conflict(None), None);
}

#[test]
fn later_prices_override_earlier_ones() {
    let rows = vec![
        CostRow { id: "a".into(), xp_cost: Some(3) },
        CostRow { id: "b".into(), xp_cost: None },
        CostRow { id: "c".into(), xp_cost: Some(5) },
        CostRow { id: "a".into(), xp_cost: Some(4) },
    ];
    let v = collect_costs(&rows);
    let pairs: Vec<(String, i32)> = v.into_iter().map(|e| (e.id, e.xp_cost)).collect();
    assert_eq!(pairs, vec![("a".to_string(), 4), ("c".to_string(), 5)]);
}

#[test]
fn power_prices_split_by_clan() {
    let rows = vec![
        PowerCostRow { in_clan: true, level: 1, xp_cost: 5 },
        PowerCostRow { in_clan: false, level: 1, xp_cost: 7 },
        PowerCostRow { in_clan: true, level: 2, xp_cost: 10 },
        PowerCostRow { in_clan: true, level: 1, xp_cost: 6 },
    ];
    let (inc, outc) = collect_power_costs(&rows);
    assert_eq!(inc, vec![LevelCost { level: 1, xp_cost: 6 }, LevelCost { level: 2, xp_cost: 10 }]);
    assert_eq!(outc, vec![LevelCost { level: 1, xp_cost: 7 }]);
}

#[test]
fn humanity_prices() {
    let rows = vec![
        HumanityCostRow { change_type: "gain".into(), xp_cost: 2 },
        HumanityCostRow { change_type: "other".into(), xp_cost: 99 },
        HumanityCostRow { change_type: "loss".into(), xp_cost: 1 },
    ];
    assert_eq!(humanity_costs(&rows), (2, 1));
    assert_eq!(humanity_costs(&vec![]), (0, 0));
}

#[test]
fn script_json_is_escaped() {
    assert_eq!(escape_script_json(r#"{"a":"</script>"}"#), r#"{"a":"<\/script>"}"#);
    assert_eq!(escape_script_json("<</"), "<<\\/");
    assert_eq!(escape_script_json("/</"), "/<\\/");
    assert_eq!(escape_script_json("plain"), "plain");
    assert!(!escape_script_json("a</b</c").contains("</"));
}

#[test]
fn accounts_are_grouped_by_type() {
    let types: Vec<String> = vec!["asset".into(), "debt".into(), "asset".into(), "income".into()];
    let g = group_by_type(&types);
    let got: Vec<(String, Vec<usize>)> = g.into_iter().map(|t| (t.account_type, t.positions)).collect();
    assert_eq!(
        got,
        vec![("asset".to_string(), vec![0, 2]), ("debt".to_string(), vec![1]), ("income".to_string(), vec![3])]
    );
}

#[test]
fn stored_words_read_back() {
    for role in [Role::User, Role::Storyteller] {
        assert_eq!(Role::from_word(role.as_word()), Some(role));
    }
    for status in [CharacterStatus::Draft, CharacterStatus::Active, CharacterStatus::Inactive] {
        assert_eq!(CharacterStatus::from_word(status.as_word()), Some(status));
    }
    assert_eq!(Role::Storyteller.as_word(), "storyteller");
    assert_eq!(CharacterStatus::Inactive.as_word(), "inactive");
    assert_eq!(Role::from_word("admin"), None);
    assert_eq!(CharacterStatus::from_word("Active"), None);
}

#[test]
fn failures_have_statuses() {
    assert_eq!(AppError::PathNotFound.status(), 404);
    assert_eq!(AppError::MethodNotFound.status(), 405);
    assert_eq!(AppError::Forbidden.status(), 403);
    assert_eq!(AppError::InvalidDraft("x".into()).status(), 400);
    assert_eq!(AppError::CharacterNotActive.status(), 409);
    assert_eq!(AppError::OidcGaveNoToken.status(), 502);
    assert_eq!(AppError::InvalidHeaderValue.status(), 500);
}

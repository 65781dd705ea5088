use chronicle::assets::RootAsset;
use chronicle::errors::AppError;
use chronicle::roles::{Role, SessionData};
use chronicle::routing::{
    admin_character_location, admin_characters_location, admin_user_location, own_character_answer, route,
    route_segments, saved_character_location, slash_redirect_location, CharacterPage, Method,
    RoutePlan, Target,
};

fn user() -> Option<SessionData> {
    Some(SessionData { user_id: 7, role: Role::User })
}

fn storyteller() -> Option<SessionData> {
    Some(SessionData { user_id: 0, role: Role::Storyteller })
}

fn plan(path: &str, method: Method, session: Option<SessionData>) -> RoutePlan {
    let segs = route_segments(path).unwrap();
    route(&segs, method, session)
}

fn target(path: &str, method: Method, session: Option<SessionData>) -> Result<Target, AppError> {
    plan(path, method, session).target
}

#[test]
fn text_before_the_root_is_refused() {
    assert_eq!(
        route_segments("localhost:8080wrong/path").unwrap_err(),
        AppError::PathDataBeforeRoot("localhost:8080wrong".to_string())
    );
    assert_eq!(route_segments("/a/").unwrap(), vec!["", "a", ""]);
}

#[test]
fn front_page_and_trailing_slashes() {
    assert_eq!(target("/", Method::Get, None), Ok(Target::Home));
    assert_eq!(target("/", Method::Post, None), Err(AppError::MethodNotFound));
    assert_eq!(target("", Method::Get, None), Ok(Target::AddSlash));
    assert_eq!(target("//", Method::Get, None), Err(AppError::PathNotFound));
    assert_eq!(target("/characters", Method::Get, None), Ok(Target::AddSlash));
    assert_eq!(slash_redirect_location("/characters"), "/characters/");
}

#[test]
fn public_pages() {
    assert_eq!(target("/characters/", Method::Get, None), Ok(Target::PublicCharacters));
    assert_eq!(target("/characters/x/", Method::Get, None), Err(AppError::PathNotFound));
    assert_eq!(target("/post-login", Method::Get, None), Ok(Target::FinishLogin));
    assert!(!plan("/post-login", Method::Get, None).forward_auth_cookies);
    assert!(plan("/characters/", Method::Get, None).forward_auth_cookies);
    assert_eq!(target("/nope", Method::Get, None), Err(AppError::PathNotFound));
}

#[test]
fn private_pages_need_login() {
    assert_eq!(target("/character/", Method::Get, None), Ok(Target::StartLogin));
    assert_eq!(target("/admin/", Method::Get, None), Ok(Target::StartLogin));
    assert_eq!(target("/character/", Method::Get, user()), Ok(Target::MyCharacters));
    assert_eq!(target("/character/", Method::Post, user()), Ok(Target::CreateCharacter));
    assert_eq!(target("/character/", Method::Other, user()), Err(AppError::MethodNotFound));
}

#[test]
fn own_character_pages() {
    assert_eq!(target("/character/12/", Method::Get, user()), Ok(Target::OwnCharacter(12, Ok(CharacterPage::Sheet))));
    assert_eq!(target("/character/12/", Method::Post, user()), Ok(Target::OwnCharacter(12, Ok(CharacterPage::SaveDraft))));
    assert_eq!(target("/character/12", Method::Get, user()), Ok(Target::OwnCharacter(12, Ok(CharacterPage::AddSlash))));
    assert_eq!(
        target("/character/12/x", Method::Get, user()),
        Ok(Target::OwnCharacter(12, Err(AppError::PathNotFound)))
    );
    assert_eq!(target("/character/abc/", Method::Get, user()), Err(AppError::BadPathId));
}

#[test]
fn storyteller_pages() {
    assert_eq!(target("/admin/", Method::Get, user()), Err(AppError::Forbidden));
    assert_eq!(target("/admin/user/", Method::Get, user()), Err(AppError::Forbidden));
    assert_eq!(target("/admin/", Method::Get, storyteller()), Ok(Target::AdminHome));
    assert_eq!(target("/admin/user/", Method::Get, storyteller()), Ok(Target::AdminUsers));
    assert_eq!(target("/admin/user/3/", Method::Get, storyteller()), Ok(Target::AdminUser(3)));
    assert_eq!(target("/admin/user/3/", Method::Post, storyteller()), Ok(Target::AdminUpdateUser(3)));
    assert_eq!(target("/admin/character/", Method::Post, storyteller()), Ok(Target::AdminCreateCharacter));
    assert_eq!(target("/admin/character/4/", Method::Get, storyteller()), Ok(Target::AdminCharacter(4)));
    assert_eq!(target("/admin/character/4/", Method::Post, storyteller()), Ok(Target::AdminCharacterAction(4)));
    assert_eq!(target("/admin/character/4/edit/", Method::Get, storyteller()), Ok(Target::AdminEditCharacter(4)));
    assert_eq!(target("/admin/character/4/edit/", Method::Post, storyteller()), Ok(Target::AdminSaveCharacter(4)));
    assert_eq!(target("/admin/character/4/edit", Method::Get, storyteller()), Ok(Target::AddSlash));
    assert_eq!(target("/admin/character/-4/", Method::Get, storyteller()), Ok(Target::AdminCharacter(-4)));
    assert_eq!(target("/admin/character/4/other/", Method::Get, storyteller()), Err(AppError::PathNotFound));
    assert_eq!(target("/admin/other/", Method::Get, storyteller()), Err(AppError::PathNotFound));
    assert_eq!(target("/admin/user/x/", Method::Get, storyteller()), Err(AppError::BadPathId));
}

#[test]
fn wiki_pages_are_cacheable() {
    assert_eq!(target("/wiki/", Method::Get, None), Ok(Target::WikiIndex));
    assert_eq!(target("/wiki/", Method::Post, None), Err(AppError::MethodNotFound));
    assert_eq!(target("/wiki/klaner/", Method::Get, None), Ok(Target::WikiPage("klaner".to_string())));
    assert_eq!(target("/wiki/klaner", Method::Get, None), Ok(Target::AddSlash));
    assert_eq!(target("/wiki/klaner/x", Method::Get, None), Err(AppError::PathNotFound));
    assert!(plan("/wiki/klaner/", Method::Get, None).cacheable);
    assert!(!plan("/character/", Method::Get, user()).cacheable);
}

#[test]
fn root_assets_are_served_and_cacheable() {
    let p = plan("/favicon.png", Method::Get, None);
    assert_eq!(p.target, Ok(Target::Asset(RootAsset::Favicon)));
    assert!(p.cacheable);
    assert_eq!(target("/styles.css", Method::Post, None), Err(AppError::MethodNotFound));
    assert_eq!(target("/styles.css/x", Method::Get, None), Err(AppError::PathNotFound));
}

#[test]
fn redirect_locations() {
    assert_eq!(admin_character_location(5), "/admin/character/5/");
    assert_eq!(admin_characters_location(5), "/admin/characters/5/");
    assert_eq!(admin_user_location(-1), "/admin/user/-1/");
    assert_eq!(saved_character_location(42), "/character/42/?saved=1");
    assert_eq!(target(&admin_character_location(5), Method::Get, storyteller()), Ok(Target::AdminCharacter(5)));
}

#[test]
fn cache_control_follows_the_plan() {
    assert_eq!(plan("/wiki/", Method::Get, None).cache_control(), "public, max-age=86400");
    assert_eq!(plan("/styles.css", Method::Get, None).cache_control(), "public, max-age=86400");
    assert_eq!(plan("/characters/", Method::Get, None).cache_control(), "no-store");
}

#[test]
fn unknown_or_foreign_characters_are_not_found() {
    for page in [
        Ok(CharacterPage::Sheet),
        Ok(CharacterPage::SaveDraft),
        Ok(CharacterPage::AddSlash),
        Err(AppError::MethodNotFound),
        Err(AppError::PathNotFound),
    ] {
        assert_eq!(own_character_answer(None::<&str>, page), Err(AppError::PathNotFound));
    }
    assert_eq!(own_character_answer(Some("Vera"), Ok(CharacterPage::Sheet)), Ok(("Vera", CharacterPage::Sheet)));
    assert_eq!(
        own_character_answer(Some("Vera"), Err::<CharacterPage, _>(AppError::MethodNotFound)),
        Err(AppError::MethodNotFound)
    );
    if let Ok(Target::OwnCharacter(id, page)) = target("/character/42/x", Method::Get, user()) {
        assert_eq!(id, 42);
        assert_eq!(own_character_answer(None::<()>, page), Err(AppError::PathNotFound));
    } else {
        panic!("expected a character route");
    }
}

use chronicle::auth::{
    advance_authentication, advance_login, display_name_from_claims, start_authentication,
    start_login_completion, token_cookies, AuthEvent, AuthStep, LoginEvent, LoginStep,
};
use chronicle::errors::AppError;
use chronicle::roles::{Role, SessionData};

const CLEAR_SESSION: &str = "__Host-session_token=; Path=/; Max-Age=0; Secure; HttpOnly; SameSite=Strict";
const CLEAR_REFRESH: &str = "__Host-refresh_token=; Path=/; Max-Age=0; Secure; HttpOnly; SameSite=Strict";

fn alice() -> SessionData {
    SessionData { user_id: 3, role: Role::User }
}

fn finished(step: AuthStep) -> (Option<SessionData>, Vec<String>) {
    match step {
        AuthStep::Finished(r) => (
            r.session,
            r.set_cookies.iter().map(|h| h.to_str().unwrap().to_string()).collect(),
        ),
        _ => panic!("authentication did not finish"),
    }
}

#[test]
fn no_cookies_means_anonymous() {
    let (session, cookies) = finished(start_authentication(false, None));
    assert_eq!(session, None);
    assert!(cookies.is_empty());
}

#[test]
fn valid_session_token_signs_in_without_cookie_changes() {
    let s = start_authentication(true, Some("r1".to_string()));
    assert!(matches!(s, AuthStep::VerifySessionToken { refresh_cookie: Some(_) }));
    let s = advance_authentication(s, AuthEvent::SessionTokenVerified);
    assert!(matches!(s, AuthStep::LoadSession));
    let (session, cookies) = finished(advance_authentication(s, AuthEvent::SessionLoaded(alice())));
    assert_eq!(session, Some(alice()));
    assert!(cookies.is_empty());
}

#[test]
fn unreadable_or_rejected_token_signs_out() {
    for ev in [AuthEvent::SessionTokenUnreadable, AuthEvent::SessionTokenRejected] {
        let s = start_authentication(true, Some("r1".to_string()));
        let (session, cookies) = finished(advance_authentication(s, ev));
        assert_eq!(session, None);
        assert_eq!(cookies, vec![CLEAR_SESSION, CLEAR_REFRESH]);
    }
}

#[test]
fn expired_token_without_refresh_cookie_signs_out() {
    let s = start_authentication(true, None);
    let (session, cookies) = finished(advance_authentication(s, AuthEvent::SessionTokenExpired));
    assert_eq!(session, None);
    assert_eq!(cookies, vec![CLEAR_SESSION, CLEAR_REFRESH]);
}

#[test]
fn expired_token_is_refreshed() {
    let s = start_authentication(true, Some("old-refresh".to_string()));
    let s = advance_authentication(s, AuthEvent::SessionTokenExpired);
    assert!(matches!(&s, AuthStep::ExchangeRefreshToken { refresh_token } if refresh_token == "old-refresh"));
    let s = advance_authentication(s, AuthEvent::RefreshVerified);
    let s = advance_authentication(
        s,
        AuthEvent::RefreshedSessionLoaded { session: alice(), id_token: "new.id.token".to_string(), new_refresh_token: None },
    );
    let (session, cookies) = finished(s);
    assert_eq!(session, Some(alice()));
    assert_eq!(
        cookies,
        vec![
            "__Host-session_token=new.id.token; Path=/; Max-Age=3600; Secure; HttpOnly; SameSite=Strict",
            "__Host-refresh_token=old-refresh; Path=/; Max-Age=2592000; Secure; HttpOnly; SameSite=Strict",
        ]
    );
}

#[test]
fn refresh_prefers_the_new_refresh_token() {
    let s = start_authentication(false, Some("old".to_string()));
    let s = advance_authentication(s, AuthEvent::RefreshVerified);
    let s = advance_authentication(
        s,
        AuthEvent::RefreshedSessionLoaded { session: alice(), id_token: "t".to_string(), new_refresh_token: Some("new".to_string()) },
    );
    let (_, cookies) = finished(s);
    assert_eq!(cookies[1], "__Host-refresh_token=new; Path=/; Max-Age=2592000; Secure; HttpOnly; SameSite=Strict");
}

#[test]
fn failed_refresh_signs_out() {
    let s = start_authentication(false, Some("old".to_string()));
    assert!(matches!(s, AuthStep::ExchangeRefreshToken { .. }));
    let (session, cookies) = finished(advance_authentication(s, AuthEvent::RefreshFailed));
    assert_eq!(session, None);
    assert_eq!(cookies, vec![CLEAR_SESSION, CLEAR_REFRESH]);
}

#[test]
fn unanswered_events_leave_the_step() {
    let s = advance_authentication(AuthStep::LoadSession, AuthEvent::RefreshFailed);
    assert!(matches!(s, AuthStep::LoadSession));
}

#[test]
fn unwritable_token_fails() {
    let s = advance_authentication(
        AuthStep::LoadRefreshedSession { refresh_token: "ok".to_string() },
        AuthEvent::RefreshedSessionLoaded { session: alice(), id_token: "bad\nline".to_string(), new_refresh_token: None },
    );
    assert!(matches!(s, AuthStep::Failed(AppError::InvalidHeaderValue)));
}

#[test]
fn token_cookies_store_both_tokens() {
    let v = token_cookies("a", "b").unwrap();
    assert_eq!(v[0].to_str().unwrap(), "__Host-session_token=a; Path=/; Max-Age=3600; Secure; HttpOnly; SameSite=Strict");
    assert_eq!(v[1].to_str().unwrap(), "__Host-refresh_token=b; Path=/; Max-Age=2592000; Secure; HttpOnly; SameSite=Strict");
}

#[test]
fn login_completes_with_both_cookies() {
    let s = start_login_completion();
    let s = advance_login(s, LoginEvent::LoginProcessFound);
    let s = advance_login(s, LoginEvent::CodeExchanged { id_token: Some("id".to_string()), refresh_token: Some("rt".to_string()) });
    let s = advance_login(s, LoginEvent::IdTokenVerified);
    match advance_login(s, LoginEvent::UserStored) {
        LoginStep::Finished(v) => {
            assert_eq!(v[0].to_str().unwrap(), "__Host-session_token=id; Path=/; Max-Age=3600; Secure; HttpOnly; SameSite=Strict");
            assert_eq!(v[1].to_str().unwrap(), "__Host-refresh_token=rt; Path=/; Max-Age=2592000; Secure; HttpOnly; SameSite=Strict");
        },
        _ => panic!("login did not finish"),
    }
}

#[test]
fn login_refusals() {
    assert!(matches!(
        advance_login(LoginStep::FindLoginProcess, LoginEvent::LoginProcessMissing),
        LoginStep::Failed(AppError::UnknownOidcProcess)
    ));
    assert!(matches!(
        advance_login(LoginStep::ExchangeCode, LoginEvent::CodeExchanged { id_token: None, refresh_token: Some("r".to_string()) }),
        LoginStep::Failed(AppError::OidcGaveNoToken)
    ));
    assert!(matches!(
        advance_login(
            LoginStep::StoreUser { id_token: "i".to_string(), refresh_token: None },
            LoginEvent::UserStored
        ),
        LoginStep::Failed(AppError::OidcGaveNoRefreshToken)
    ));
}

#[test]
fn display_name_falls_back_in_order() {
    let s = |x: &str| Some(x.to_string());
    assert_eq!(display_name_from_claims(s("Anna"), s("anna1"), s("a@x.se"), "sub".into()), "Anna");
    assert_eq!(display_name_from_claims(None, s("anna1"), s("a@x.se"), "sub".into()), "anna1");
    assert_eq!(display_name_from_claims(None, None, s("a@x.se"), "sub".into()), "a@x.se");
    assert_eq!(display_name_from_claims(None, None, None, "sub".into()), "sub");
}

use vstd::prelude::*;
use hyper::header::HeaderValue;
use crate::cookies::{
    REFRESH_COOKIE_MAX_AGE_SECONDS, REFRESH_COOKIE_NAME, SESSION_COOKIE_MAX_AGE_SECONDS,
    SESSION_COOKIE_NAME, clear_auth_cookies, clears_auth_cookies, cookie_text, format_cookie,
    header_safe_text, header_value_bytes,
};
use crate::errors::AppError;
use crate::roles::SessionData;

verus! {

/// Who a request comes from, and the cookie changes its answer must carry.
pub struct AuthResult {
    pub session: Option<SessionData>,
    pub set_cookies: Vec<HeaderValue>,
}

/// No one is signed in and no cookie changes.
pub open spec fn is_anonymous(r: AuthResult) -> bool {
    r.session is None && r.set_cookies@.len() == 0
}

/// No one is signed in and both authentication cookies are removed.
pub open spec fn is_signed_out(r: AuthResult) -> bool {
    r.session is None && clears_auth_cookies(r.set_cookies@)
}

/// `s` is signed in by a valid session cookie; no cookie changes.
pub open spec fn is_signed_in(r: AuthResult, s: SessionData) -> bool {
    r.session == Some(s) && r.set_cookies@.len() == 0
}

/// The two headers that store a fresh id token as the session cookie and a
/// refresh token as the refresh cookie, in that order.
pub open spec fn stores_tokens(headers: Seq<HeaderValue>, id_token: Seq<char>, refresh_token: Seq<char>) -> bool {
    &&& headers.len() == 2
    &&& header_value_bytes(headers[0]) == vstd::utf8::encode_utf8(
        cookie_text(SESSION_COOKIE_NAME@, id_token, SESSION_COOKIE_MAX_AGE_SECONDS as int),
    )
    &&& header_value_bytes(headers[1]) == vstd::utf8::encode_utf8(
        cookie_text(REFRESH_COOKIE_NAME@, refresh_token, REFRESH_COOKIE_MAX_AGE_SECONDS as int),
    )
}

/// Whether both token cookies can be written as headers.
pub open spec fn tokens_storable(id_token: Seq<char>, refresh_token: Seq<char>) -> bool {
    &&& header_safe_text(cookie_text(SESSION_COOKIE_NAME@, id_token, SESSION_COOKIE_MAX_AGE_SECONDS as int))
    &&& header_safe_text(cookie_text(REFRESH_COOKIE_NAME@, refresh_token, REFRESH_COOKIE_MAX_AGE_SECONDS as int))
}

/// The headers that store a session's id token and refresh token.
pub fn token_cookies(id_token: &str, refresh_token: &str) -> (r: Result<Vec<HeaderValue>, AppError>)
    ensures
        r is Ok <==> tokens_storable(id_token@, refresh_token@),
        r matches Ok(v) ==> stores_tokens(v@, id_token@, refresh_token@),
        r matches Err(e) ==> e == AppError::InvalidHeaderValue,
{
    let session = match format_cookie(SESSION_COOKIE_NAME, id_token, SESSION_COOKIE_MAX_AGE_SECONDS) {
        Ok(v) => v,
        Err(e) => return Err(e),
    };
    let refresh = match format_cookie(REFRESH_COOKIE_NAME, refresh_token, REFRESH_COOKIE_MAX_AGE_SECONDS) {
        Ok(v) => v,
        Err(e) => return Err(e),
    };
    let mut v = Vec::new();
    v.push(session);
    v.push(refresh);
    Ok(v)
}

// ---------------------------------------------------------------------------
// Authenticating a request from its cookies
// ---------------------------------------------------------------------------

/// Where the authentication of a request stands: the outside work to do next,
/// or its result.
pub enum AuthStep {
    /// Read the session cookie as an id token and verify it.
    VerifySessionToken { refresh_cookie: Option<String> },
    /// Exchange the refresh token at the identity provider and verify the id
    /// token it answers with.
    ExchangeRefreshToken { refresh_token: String },
    /// Store or load the user named by the verified session token.
    LoadSession,
    /// Store or load the user named by the refreshed id token.
    LoadRefreshedSession { refresh_token: String },
    /// Done: who is signed in and which cookies to set.
    Finished(AuthResult),
    /// Done: the answer cannot be built.
    Failed(AppError),
}

/// What the outside work of a step came to.
pub enum AuthEvent {
    /// The session cookie is not an id token.
    SessionTokenUnreadable,
    /// The session token is valid.
    SessionTokenVerified,
    /// The session token has expired.
    SessionTokenExpired,
    /// The session token is rejected for another reason.
    SessionTokenRejected,
    /// The refresh did not give a verified id token: the request could not be
    /// made or failed, the answer held no id token, or that token was rejected.
    RefreshFailed,
    /// The refresh gave a verified id token.
    RefreshVerified,
    /// The user of the session token is loaded.
    SessionLoaded(SessionData),
    /// The user of the refreshed id token is loaded; the new id token and the
    /// refresh token the provider returned, if any, are carried.
    RefreshedSessionLoaded { session: SessionData, id_token: String, new_refresh_token: Option<String> },
}

/// The first step, from which authentication cookies the request carries.
pub open spec fn auth_start(session_cookie_present: bool, refresh_cookie: Option<String>, s: AuthStep) -> bool {
    if session_cookie_present {
        s == AuthStep::VerifySessionToken { refresh_cookie }
    } else {
        match refresh_cookie {
            Some(c) => s == AuthStep::ExchangeRefreshToken { refresh_token: c },
            None => s matches AuthStep::Finished(r) && is_anonymous(r),
        }
    }
}

/// `next` is where a refresh that gave nothing leaves the request: signed
/// out, with both cookies removed.
pub open spec fn signs_out(next: AuthStep) -> bool {
    next matches AuthStep::Finished(r) && is_signed_out(r)
}

/// One step of authentication: `next` follows `step` on `event`. An event
/// that does not answer the step leaves it unchanged.
pub open spec fn auth_next(step: AuthStep, event: AuthEvent, next: AuthStep) -> bool {
    match step {
        AuthStep::VerifySessionToken { refresh_cookie } => match event {
            AuthEvent::SessionTokenVerified => next == AuthStep::LoadSession,
            AuthEvent::SessionTokenExpired => match refresh_cookie {
                Some(c) => next == AuthStep::ExchangeRefreshToken { refresh_token: c },
                None => signs_out(next),
            },
            AuthEvent::SessionTokenUnreadable | AuthEvent::SessionTokenRejected => signs_out(next),
            _ => next == step,
        },
        AuthStep::ExchangeRefreshToken { refresh_token } => match event {
            AuthEvent::RefreshVerified => next == AuthStep::LoadRefreshedSession { refresh_token },
            AuthEvent::RefreshFailed => signs_out(next),
            _ => next == step,
        },
        AuthStep::LoadSession => match event {
            AuthEvent::SessionLoaded(s) => next matches AuthStep::Finished(r) && is_signed_in(r, s),
            _ => next == step,
        },
        AuthStep::LoadRefreshedSession { refresh_token } => match event {
            AuthEvent::RefreshedSessionLoaded { session, id_token, new_refresh_token } => {
                let refresh = match new_refresh_token {
                    Some(t) => t@,
                    None => refresh_token@,
                };
                if tokens_storable(id_token@, refresh) {
                    next matches AuthStep::Finished(r) && r.session == Some(session)
                        && stores_tokens(r.set_cookies@, id_token@, refresh)
                } else {
                    next == AuthStep::Failed(AppError::InvalidHeaderValue)
                }
            },
            _ => next == step,
        },
        AuthStep::Finished(_) | AuthStep::Failed(_) => next == step,
    }
}

fn signed_out_step() -> (s: AuthStep)
    ensures
        signs_out(s),
{
    match clear_auth_cookies() {
        Ok(v) => AuthStep::Finished(AuthResult { session: None, set_cookies: v }),
        Err(e) => AuthStep::Failed(e),
    }
}

/// Begins authenticating a request that carries a session cookie or not, and
/// a refresh cookie or not.
pub fn start_authentication(session_cookie_present: bool, refresh_cookie: Option<String>) -> (s: AuthStep)
    ensures
        auth_start(session_cookie_present, refresh_cookie, s),
{
    if session_cookie_present {
        AuthStep::VerifySessionToken { refresh_cookie }
    } else {
        match refresh_cookie {
            Some(c) => AuthStep::ExchangeRefreshToken { refresh_token: c },
            None => AuthStep::Finished(AuthResult { session: None, set_cookies: Vec::new() }),
        }
    }
}

/// Takes one step of authentication.
pub fn advance_authentication(step: AuthStep, event: AuthEvent) -> (next: AuthStep)
    ensures
        auth_next(step, event, next),
{
    match step {
        AuthStep::VerifySessionToken { refresh_cookie } => match event {
            AuthEvent::SessionTokenVerified => AuthStep::LoadSession,
            AuthEvent::SessionTokenExpired => match refresh_cookie {
                Some(c) => AuthStep::ExchangeRefreshToken { refresh_token: c },
                None => signed_out_step(),
            },
            AuthEvent::SessionTokenUnreadable | AuthEvent::SessionTokenRejected => signed_out_step(),
            _ => AuthStep::VerifySessionToken { refresh_cookie },
        },
        AuthStep::ExchangeRefreshToken { refresh_token } => match event {
            AuthEvent::RefreshVerified => AuthStep::LoadRefreshedSession { refresh_token },
            AuthEvent::RefreshFailed => signed_out_step(),
            _ => AuthStep::ExchangeRefreshToken { refresh_token },
        },
        AuthStep::LoadSession => match event {
            AuthEvent::SessionLoaded(s) => AuthStep::Finished(AuthResult { session: Some(s), set_cookies: Vec::new() }),
            _ => AuthStep::LoadSession,
        },
        AuthStep::LoadRefreshedSession { refresh_token } => match event {
            AuthEvent::RefreshedSessionLoaded { session, id_token, new_refresh_token } => {
                let refresh = match new_refresh_token {
                    Some(t) => t,
                    None => refresh_token,
                };
                match token_cookies(id_token.as_str(), refresh.as_str()) {
                    Ok(v) => AuthStep::Finished(AuthResult { session: Some(session), set_cookies: v }),
                    Err(e) => AuthStep::Failed(e),
                }
            },
            _ => AuthStep::LoadRefreshedSession { refresh_token },
        },
        AuthStep::Finished(r) => AuthStep::Finished(r),
        AuthStep::Failed(e) => AuthStep::Failed(e),
    }
}

/// How much outside work a step can still lead to.
pub open spec fn auth_rank(step: AuthStep) -> nat {
    match step {
        AuthStep::VerifySessionToken { .. } => 3,
        AuthStep::ExchangeRefreshToken { .. } => 2,
        AuthStep::LoadSession | AuthStep::LoadRefreshedSession { .. } => 1,
        AuthStep::Finished(_) | AuthStep::Failed(_) => 0,
    }
}

/// Authentication always ends, after at most three pieces of outside work:
/// every step that an event answers moves strictly closer to the end, so the
/// session token is verified at most once and the refresh token is exchanged
/// at most once per request. A finished step stays finished.
pub proof fn lemma_auth_terminates(step: AuthStep, event: AuthEvent, next: AuthStep)
    requires
        auth_next(step, event, next),
    ensures
        next == step || auth_rank(next) < auth_rank(step),
        auth_rank(step) == 0 ==> next == step,
{
}

/// A request is only ever signed in by a session that was loaded for it:
/// from a verified session token, or from a refresh whose tokens are stored
/// again in the answer's cookies.
pub proof fn lemma_signed_in_only_by_loaded_session(step: AuthStep, event: AuthEvent, next: AuthStep)
    requires
        auth_next(step, event, next),
        !(step is Finished),
        next matches AuthStep::Finished(r) && r.session is Some,
    ensures
        step is LoadSession || step is LoadRefreshedSession,
        step is LoadSession ==> (event matches AuthEvent::SessionLoaded(s)
            && next matches AuthStep::Finished(r) && is_signed_in(r, s)),
        step matches AuthStep::LoadRefreshedSession { refresh_token } ==> (
            event matches AuthEvent::RefreshedSessionLoaded { session, id_token, new_refresh_token }
            && next matches AuthStep::Finished(r) && r.session == Some(session)
            && stores_tokens(r.set_cookies@, id_token@, match new_refresh_token {
                Some(t) => t@,
                None => refresh_token@,
            })),
{
}

/// With a session cookie, the refresh token is only exchanged when the
/// session token has expired.
pub proof fn lemma_refresh_only_after_expiry(step: AuthStep, event: AuthEvent, next: AuthStep)
    requires
        auth_next(step, event, next),
        step is VerifySessionToken,
        next is ExchangeRefreshToken,
    ensures
        event == AuthEvent::SessionTokenExpired,
        step->refresh_cookie == Some(next->ExchangeRefreshToken_refresh_token),
{
}

} // verus!

verus! {

// ---------------------------------------------------------------------------
// Completing a login at the identity provider's callback
// ---------------------------------------------------------------------------

/// Where the completion of a login stands.
pub enum LoginStep {
    /// Take the login process named by the callback out of the store (it
    /// must be at most five minutes old) to learn its nonce.
    FindLoginProcess,
    /// Exchange the callback's authorization code for tokens.
    ExchangeCode,
    /// Verify the id token against the process's nonce.
    VerifyIdToken { id_token: String, refresh_token: Option<String> },
    /// Store or load the user named by the verified id token.
    StoreUser { id_token: String, refresh_token: Option<String> },
    /// Done: redirect to the front page setting these cookies.
    Finished(Vec<HeaderValue>),
    /// Done: the login is refused.
    Failed(AppError),
}

/// What the outside work of a login step came to.
pub enum LoginEvent {
    LoginProcessFound,
    LoginProcessMissing,
    /// The code was exchanged; the answer's id token (as text) and refresh
    /// token, where it held them.
    CodeExchanged { id_token: Option<String>, refresh_token: Option<String> },
    IdTokenVerified,
    UserStored,
}

/// One step of completing a login. An event that does not answer the step
/// leaves it unchanged.
pub open spec fn login_next(step: LoginStep, event: LoginEvent, next: LoginStep) -> bool {
    match step {
        LoginStep::FindLoginProcess => match event {
            LoginEvent::LoginProcessFound => next == LoginStep::ExchangeCode,
            LoginEvent::LoginProcessMissing => next == LoginStep::Failed(AppError::UnknownOidcProcess),
            _ => next == step,
        },
        LoginStep::ExchangeCode => match event {
            LoginEvent::CodeExchanged { id_token, refresh_token } => match id_token {
                None => next == LoginStep::Failed(AppError::OidcGaveNoToken),
                Some(t) => next == LoginStep::VerifyIdToken { id_token: t, refresh_token },
            },
            _ => next == step,
        },
        LoginStep::VerifyIdToken { id_token, refresh_token } => match event {
            LoginEvent::IdTokenVerified => next == LoginStep::StoreUser { id_token, refresh_token },
            _ => next == step,
        },
        LoginStep::StoreUser { id_token, refresh_token } => match event {
            LoginEvent::UserStored => match refresh_token {
                None => next == LoginStep::Failed(AppError::OidcGaveNoRefreshToken),
                Some(rt) => if tokens_storable(id_token@, rt@) {
                    next matches LoginStep::Finished(v) && stores_tokens(v@, id_token@, rt@)
                } else {
                    next == LoginStep::Failed(AppError::InvalidHeaderValue)
                },
            },
            _ => next == step,
        },
        LoginStep::Finished(_) | LoginStep::Failed(_) => next == step,
    }
}

/// The first step of completing a login.
pub fn start_login_completion() -> (s: LoginStep)
    ensures
        s == LoginStep::FindLoginProcess,
{
    LoginStep::FindLoginProcess
}

/// Takes one step of completing a login.
pub fn advance_login(step: LoginStep, event: LoginEvent) -> (next: LoginStep)
    ensures
        login_next(step, event, next),
{
    match step {
        LoginStep::FindLoginProcess => match event {
            LoginEvent::LoginProcessFound => LoginStep::ExchangeCode,
            LoginEvent::LoginProcessMissing => LoginStep::Failed(AppError::UnknownOidcProcess),
            _ => LoginStep::FindLoginProcess,
        },
        LoginStep::ExchangeCode => match event {
            LoginEvent::CodeExchanged { id_token, refresh_token } => match id_token {
                None => LoginStep::Failed(AppError::OidcGaveNoToken),
                Some(t) => LoginStep::VerifyIdToken { id_token: t, refresh_token },
            },
            _ => LoginStep::ExchangeCode,
        },
        LoginStep::VerifyIdToken { id_token, refresh_token } => match event {
            LoginEvent::IdTokenVerified => LoginStep::StoreUser { id_token, refresh_token },
            _ => LoginStep::VerifyIdToken { id_token, refresh_token },
        },
        LoginStep::StoreUser { id_token, refresh_token } => match event {
            LoginEvent::UserStored => match refresh_token {
                None => LoginStep::Failed(AppError::OidcGaveNoRefreshToken),
                Some(rt) => match token_cookies(id_token.as_str(), rt.as_str()) {
                    Ok(v) => LoginStep::Finished(v),
                    Err(e) => LoginStep::Failed(e),
                },
            },
            _ => LoginStep::StoreUser { id_token, refresh_token },
        },
        LoginStep::Finished(v) => LoginStep::Finished(v),
        LoginStep::Failed(e) => LoginStep::Failed(e),
    }
}

pub open spec fn login_rank(step: LoginStep) -> nat {
    match step {
        LoginStep::FindLoginProcess => 4,
        LoginStep::ExchangeCode => 3,
        LoginStep::VerifyIdToken { .. } => 2,
        LoginStep::StoreUser { .. } => 1,
        LoginStep::Finished(_) | LoginStep::Failed(_) => 0,
    }
}

/// Completing a login always ends: each answered step moves strictly closer
/// to the end, so the login process is consumed and the code exchanged at
/// most once; a finished step stays finished.
pub proof fn lemma_login_terminates(step: LoginStep, event: LoginEvent, next: LoginStep)
    requires
        login_next(step, event, next),
    ensures
        next == step || login_rank(next) < login_rank(step),
        login_rank(step) == 0 ==> next == step,
{
}

/// A login only finishes with both the id token and a refresh token stored
/// in cookies, after the user was stored.
pub proof fn lemma_login_stores_both_tokens(step: LoginStep, event: LoginEvent, next: LoginStep)
    requires
        login_next(step, event, next),
        !(step is Finished),
        next is Finished,
    ensures
        event is UserStored,
        step matches LoginStep::StoreUser { id_token, refresh_token } && refresh_token matches Some(rt)
            && next matches LoginStep::Finished(v) && stores_tokens(v@, id_token@, rt@),
{
}

// ---------------------------------------------------------------------------
// The name shown for a user
// ---------------------------------------------------------------------------

/// The display name taken from an id token's claims: the name, else the
/// preferred user name, else the e-mail address, else the subject.
pub open spec fn display_name_of(
    name: Option<Seq<char>>,
    preferred_username: Option<Seq<char>>,
    email: Option<Seq<char>>,
    subject: Seq<char>,
) -> Seq<char> {
    match name {
        Some(n) => n,
        None => match preferred_username {
            Some(u) => u,
            None => match email {
                Some(e) => e,
                None => subject,
            },
        },
    }
}

pub open spec fn opt_view(o: Option<String>) -> Option<Seq<char>> {
    match o {
        Some(s) => Some(s@),
        None => None,
    }
}

/// The display name of a user from the claims of their id token.
pub fn display_name_from_claims(
    name: Option<String>,
    preferred_username: Option<String>,
    email: Option<String>,
    subject: String,
) -> (r: String)
    ensures
        r@ == display_name_of(opt_view(name), opt_view(preferred_username), opt_view(email), subject@),
{
    match name {
        Some(n) => n,
        None => match preferred_username {
            Some(u) => u,
            None => match email {
                Some(e) => e,
                None => subject,
            },
        },
    }
}

} // verus!

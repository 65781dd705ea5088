use vstd::prelude::*;

verus! {

/// Why a request could not be served as asked. Each variant stands for one
/// answer that the site gives the client.
#[derive(Debug, Clone, PartialEq, Eq)]
pub enum AppError {
    /// The request path had text before its leading `/`.
    PathDataBeforeRoot(String),
    /// No page lives at the request path.
    PathNotFound,
    /// The page exists but does not answer the request method.
    MethodNotFound,
    /// A path segment that must be a numeric id was not one.
    BadPathId,
    /// The page is for storytellers only.
    Forbidden,
    /// Experience can only be spent on an active character.
    CharacterNotActive,
    /// A submitted form or draft was rejected, with the reason shown to the user.
    InvalidDraft(String),
    /// The login callback named a login process that is unknown or expired.
    UnknownOidcProcess,
    /// The identity provider answered without an id token.
    OidcGaveNoToken,
    /// The identity provider answered without a refresh token.
    OidcGaveNoRefreshToken,
    /// A header value held bytes that HTTP does not allow.
    InvalidHeaderValue,
}

/// The form error with message `msg`.
pub open spec fn draft_error<T>(r: Result<T, AppError>, msg: Seq<char>) -> bool {
    r matches Err(AppError::InvalidDraft(m)) && m@ == msg
}

/// An `InvalidDraft` error with the given message.
pub fn invalid_draft(message: &str) -> (e: AppError)
    ensures
        e matches AppError::InvalidDraft(m) && m@ == message@,
{
    AppError::InvalidDraft(message.to_owned())
}

/// The HTTP status each failure is answered with: the client's mistakes
/// with a 4xx status, a refusing or silent identity provider with 502, a
/// header that cannot be written with 500.
pub open spec fn status_of(e: AppError) -> u16 {
    match e {
        AppError::PathDataBeforeRoot(_) => 400,
        AppError::PathNotFound => 404,
        AppError::MethodNotFound => 405,
        AppError::BadPathId => 400,
        AppError::Forbidden => 403,
        AppError::CharacterNotActive => 409,
        AppError::InvalidDraft(_) => 400,
        AppError::UnknownOidcProcess => 400,
        AppError::OidcGaveNoToken => 502,
        AppError::OidcGaveNoRefreshToken => 502,
        AppError::InvalidHeaderValue => 500,
    }
}

impl AppError {
    /// The HTTP status the failure is answered with.
    pub fn status(&self) -> (r: u16)
        ensures
            r == status_of(*self),
    {
        match self {
            AppError::PathDataBeforeRoot(_) => 400,
            AppError::PathNotFound => 404,
            AppError::MethodNotFound => 405,
            AppError::BadPathId => 400,
            AppError::Forbidden => 403,
            AppError::CharacterNotActive => 409,
            AppError::InvalidDraft(_) => 400,
            AppError::UnknownOidcProcess => 400,
            AppError::OidcGaveNoToken => 502,
            AppError::OidcGaveNoRefreshToken => 502,
            AppError::InvalidHeaderValue => 500,
        }
    }
}

} // verus!

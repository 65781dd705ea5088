use vstd::prelude::*;
use crate::errors::{AppError, draft_error};
use crate::text::{has_prefix, int_text, push_int_text};

verus! {

/// What the `url` crate makes of a text: whether the parsed URL has a host,
/// or the text of its parse error.
pub uninterp spec fn url_host_presence(text: Seq<char>) -> Result<bool, Seq<char>>;

/// `reqwest::Url::parse` (the `url` crate's `Url::parse`), then
/// `Url::host_str` of the result: a function of the text alone, named
/// `url_host_presence`. Nothing more is stated of which texts are URLs.
#[verifier::external_body]
fn parse_url_host(text: &str) -> (r: Result<bool, String>)
    ensures
        presence_view(r) == url_host_presence(text@),
{
    match reqwest::Url::parse(text) {
        Ok(u) => Ok(u.host_str().is_some()),
        Err(e) => Err(e.to_string()),
    }
}

/// A parse of a link: whether it has a host, or the parse error's text.
pub open spec fn presence_view(p: Result<bool, String>) -> Result<bool, Seq<char>> {
    match p {
        Ok(b) => Ok(b),
        Err(m) => Err(m@),
    }
}

/// The answer for a link, given its parse: a parse error or a missing host
/// refuses it.
pub open spec fn host_checked(presence: Result<bool, Seq<char>>, r: Result<(), AppError>) -> bool {
    match presence {
        Err(msg) => draft_error(r, "Invalid URL: "@ + msg),
        Ok(false) => draft_error(r, "URL must have a host"@),
        Ok(true) => r == Ok::<(), AppError>(()),
    }
}

/// The checks a character's description link passes before it is fetched:
/// it must use HTTPS and parse as a URL with a host.
pub open spec fn description_url_checked(url: Seq<char>, presence: Result<bool, Seq<char>>, r: Result<(), AppError>) -> bool {
    if !(url.len() >= 8 && url.subrange(0, 8) == "https://"@) {
        draft_error(r, "URL must use HTTPS"@)
    } else {
        host_checked(presence, r)
    }
}

/// Answers for a link from its parse.
pub fn host_check_result(presence: Result<bool, String>) -> (r: Result<(), AppError>)
    ensures
        host_checked(presence_view(presence), r),
{
    match presence {
        Err(m) => {
            let mut t = String::new();
            t.append("Invalid URL: ");
            t.append(m.as_str());
            Err(AppError::InvalidDraft(t))
        },
        Ok(false) => Err(AppError::InvalidDraft("URL must have a host".to_owned())),
        Ok(true) => Ok(()),
    }
}

/// The checks on a description link that need no network: HTTPS, and a URL
/// with a host.
pub fn check_description_url(url: &str) -> (r: Result<(), AppError>)
    ensures
        description_url_checked(url@, url_host_presence(url@), r),
{
    proof {
        reveal_strlit("https://");
    }
    if !has_prefix(url, "https://") {
        return Err(AppError::InvalidDraft("URL must use HTTPS".to_owned()));
    }
    host_check_result(parse_url_host(url))
}

/// The message for a description link that answered with an unsuccessful
/// status.
pub open spec fn bad_status_message(status: u16) -> Seq<char> {
    "URL returned status "@ + int_text(status as int)
        + " — the document may not be publicly accessible"@
}

/// The link must answer with a success status (200 to 299) to be accepted.
pub fn check_description_url_status(status: u16) -> (r: Result<(), AppError>)
    ensures
        200 <= status <= 299 ==> r == Ok::<(), AppError>(()),
        !(200 <= status <= 299) ==> draft_error(r, bad_status_message(status)),
{
    if 200 <= status && status <= 299 {
        Ok(())
    } else {
        let mut t = String::new();
        t.append("URL returned status ");
        push_int_text(&mut t, status as i64);
        t.append(" — the document may not be publicly accessible");
        Err(AppError::InvalidDraft(t))
    }
}

/// The error for a description link that could not be fetched, carrying the
/// reason.
pub fn unreachable_url_error(reason: &str) -> (r: AppError)
    ensures
        r matches AppError::InvalidDraft(m) && m@ == "Could not reach URL: "@ + reason@,
{
    let mut t = String::new();
    t.append("Could not reach URL: ");
    t.append(reason);
    AppError::InvalidDraft(t)
}

} // verus!

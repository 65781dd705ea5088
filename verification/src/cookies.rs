use vstd::prelude::*;
use vstd::utf8::encode_utf8;
use hyper::header::{HeaderValue, InvalidHeaderValue};
use crate::errors::AppError;
use crate::text::{int_text, push_int_text};

verus! {

#[verifier::external_type_specification]
#[verifier::external_body]
pub struct ExHeaderValue(HeaderValue);

#[verifier::external_type_specification]
#[verifier::external_body]
pub struct ExInvalidHeaderValue(InvalidHeaderValue);

/// The bytes that a header value holds.
pub uninterp spec fn header_value_bytes(value: HeaderValue) -> Seq<u8>;

/// A character that may stand in an HTTP header value: a tab, or any
/// character from the space on other than DEL. (Every byte of the UTF-8
/// encoding of a character above ASCII is at least 0x80, and such bytes are
/// allowed.)
pub open spec fn header_safe_char(c: char) -> bool {
    c == '\t' || (c as u32 >= 32 && c as u32 != 127)
}

pub open spec fn header_safe_text(t: Seq<char>) -> bool {
    forall|i: int| 0 <= i < t.len() ==> header_safe_char(#[trigger] t[i])
}

/// `HeaderValue::try_from(String)` of the `http` crate (through `hyper`):
/// it checks each byte of the string and succeeds exactly when every byte is
/// a tab or at least 32 and not 127; on success the value holds the string's
/// UTF-8 bytes unchanged.
#[verifier::external_body]
fn header_value_from_string(text: String) -> (r: Result<HeaderValue, InvalidHeaderValue>)
    ensures
        r is Ok <==> header_safe_text(text@),
        r matches Ok(v) ==> header_value_bytes(v) == encode_utf8(text@),
{
    HeaderValue::try_from(text)
}

pub const SESSION_COOKIE_NAME: &'static str = "__Host-session_token";
pub const REFRESH_COOKIE_NAME: &'static str = "__Host-refresh_token";
/// One hour.
pub const SESSION_COOKIE_MAX_AGE_SECONDS: i64 = 3600;
/// Thirty days.
pub const REFRESH_COOKIE_MAX_AGE_SECONDS: i64 = 2592000;

/// The `Set-Cookie` text that stores `value` under `name` for `max_age`
/// seconds, for this site only, over HTTPS only, hidden from scripts.
pub open spec fn cookie_text(name: Seq<char>, value: Seq<char>, max_age: int) -> Seq<char> {
    name + "="@ + value + "; Path=/; Max-Age="@ + int_text(max_age)
        + "; Secure; HttpOnly; SameSite=Strict"@
}

/// The `Set-Cookie` text that makes the browser drop the cookie `name`.
pub open spec fn clearing_cookie_text(name: Seq<char>) -> Seq<char> {
    name + "=; Path=/; Max-Age=0; Secure; HttpOnly; SameSite=Strict"@
}

/// What a header built from `text` comes to: the value holding the text's
/// bytes when HTTP allows them, else the invalid-header error.
pub open spec fn header_for(r: Result<HeaderValue, AppError>, text: Seq<char>) -> bool {
    &&& r is Ok <==> header_safe_text(text)
    &&& r matches Ok(v) ==> header_value_bytes(v) == encode_utf8(text)
    &&& r matches Err(e) ==> e == AppError::InvalidHeaderValue
}

fn header_from_text(text: String) -> (r: Result<HeaderValue, AppError>)
    ensures
        header_for(r, text@),
{
    match header_value_from_string(text) {
        Ok(v) => Ok(v),
        Err(_) => Err(AppError::InvalidHeaderValue),
    }
}

/// The `Set-Cookie` header value that stores a cookie.
pub fn format_cookie(name: &str, value: &str, max_age_seconds: i64) -> (r: Result<
    HeaderValue,
    AppError,
>)
    ensures
        header_for(r, cookie_text(name@, value@, max_age_seconds as int)),
{
    let mut text = String::new();
    text.append(name);
    text.append("=");
    text.append(value);
    text.append("; Path=/; Max-Age=");
    push_int_text(&mut text, max_age_seconds);
    text.append("; Secure; HttpOnly; SameSite=Strict");
    assert(text@ =~= cookie_text(name@, value@, max_age_seconds as int));
    header_from_text(text)
}

/// The `Set-Cookie` header value that removes a cookie.
pub fn format_clear_cookie(name: &str) -> (r: Result<HeaderValue, AppError>)
    ensures
        header_for(r, clearing_cookie_text(name@)),
{
    let mut text = String::new();
    text.append(name);
    text.append("=; Path=/; Max-Age=0; Secure; HttpOnly; SameSite=Strict");
    assert(text@ =~= clearing_cookie_text(name@));
    header_from_text(text)
}

proof fn lemma_header_safe_concat(a: Seq<char>, b: Seq<char>)
    requires
        header_safe_text(a),
        header_safe_text(b),
    ensures
        header_safe_text(a + b),
{
    assert forall|i: int| 0 <= i < (a + b).len() implies header_safe_char(#[trigger] (a + b)[i]) by {
        if i < a.len() {
            assert((a + b)[i] == a[i]);
        } else {
            assert((a + b)[i] == b[i - a.len()]);
        }
    }
}

/// Both authentication cookie names, and the clearing text around them, are
/// plain visible ASCII, so their clearing headers are always valid.
pub proof fn lemma_clearing_cookies_valid()
    ensures
        header_safe_text(clearing_cookie_text(SESSION_COOKIE_NAME@)),
        header_safe_text(clearing_cookie_text(REFRESH_COOKIE_NAME@)),
{
    reveal_strlit("__Host-session_token");
    reveal_strlit("__Host-refresh_token");
    reveal_strlit("=; Path=/; Max-Age=0; Secure; HttpOnly; SameSite=Strict");
    lemma_header_safe_concat(
        SESSION_COOKIE_NAME@,
        "=; Path=/; Max-Age=0; Secure; HttpOnly; SameSite=Strict"@,
    );
    lemma_header_safe_concat(
        REFRESH_COOKIE_NAME@,
        "=; Path=/; Max-Age=0; Secure; HttpOnly; SameSite=Strict"@,
    );
}

/// The two headers that remove the session and refresh cookies, in that order.
pub open spec fn clears_auth_cookies(headers: Seq<HeaderValue>) -> bool {
    &&& headers.len() == 2
    &&& header_value_bytes(headers[0]) == encode_utf8(clearing_cookie_text(SESSION_COOKIE_NAME@))
    &&& header_value_bytes(headers[1]) == encode_utf8(clearing_cookie_text(REFRESH_COOKIE_NAME@))
}

/// The headers that log the browser out: they clear the session cookie and
/// the refresh cookie. This never fails.
pub fn clear_auth_cookies() -> (r: Result<Vec<HeaderValue>, AppError>)
    ensures
        r matches Ok(v) && clears_auth_cookies(v@),
{
    proof {
        lemma_clearing_cookies_valid();
    }
    let session = match format_clear_cookie(SESSION_COOKIE_NAME) {
        Ok(v) => v,
        Err(e) => return Err(e),
    };
    let refresh = match format_clear_cookie(REFRESH_COOKIE_NAME) {
        Ok(v) => v,
        Err(e) => return Err(e),
    };
    let mut v = Vec::new();
    v.push(session);
    v.push(refresh);
    Ok(v)
}

} // verus!

verus! {

/// The position of the first `c` in `s`, if any.
pub open spec fn first_index_of(s: Seq<char>, c: char) -> Option<int>
    decreases s.len(),
{
    if s.len() == 0 {
        None
    } else if s[0] == c {
        Some(0)
    } else {
        match first_index_of(s.drop_first(), c) {
            Some(i) => Some(i + 1),
            None => None,
        }
    }
}

/// The cookie a `name=value` pair (white space around it ignored) sets,
/// named by the text before its first `=`.
pub open spec fn cookie_pair(piece: Seq<char>) -> Option<(Seq<char>, Seq<char>)> {
    let p = crate::text::trimmed(piece);
    match first_index_of(p, '=') {
        Some(i) => Some((p.take(i), p.skip(i + 1))),
        None => None,
    }
}

/// The value of cookie `name` among the pairs of a `Cookie` header; when
/// the name occurs more than once, the last pair counts.
pub open spec fn cookie_in(pieces: Seq<Seq<char>>, name: Seq<char>) -> Option<Seq<char>>
    decreases pieces.len(),
{
    if pieces.len() == 0 {
        None
    } else {
        match cookie_pair(pieces.last()) {
            Some((n, v)) => if n == name {
                Some(v)
            } else {
                cookie_in(pieces.drop_last(), name)
            },
            None => cookie_in(pieces.drop_last(), name),
        }
    }
}

proof fn lemma_first_index_of(s: Seq<char>, c: char)
    ensures
        first_index_of(s, c) matches Some(i) ==> 0 <= i < s.len() && s[i] == c,
    decreases s.len(),
{
    if s.len() > 0 {
        lemma_first_index_of(s.drop_first(), c);
    }
}

fn find_first(s: &str, c: char) -> (r: Option<usize>)
    ensures
        r matches Some(k) ==> first_index_of(s@, c) == Some(k as int),
        r is None ==> first_index_of(s@, c) is None,
{
    let n = s.unicode_len();
    let mut i: usize = 0;
    assert(s@.skip(0) =~= s@);
    while i < n
        invariant
            n == s@.len(),
            i <= n,
            first_index_of(s@, c) == (match first_index_of(s@.skip(i as int), c) {
                Some(j) => Some(j + i),
                None => None::<int>,
            }),
        decreases n - i,
    {
        assert(s@.skip(i as int).drop_first() =~= s@.skip(i + 1));
        if s.get_char(i) == c {
            return Some(i);
        }
        i = i + 1;
    }
    None
}

/// The value of the cookie `name` in a `Cookie` header (pairs separated by
/// `;`).
pub fn cookie_value(header: &str, name: &str) -> (r: Option<String>)
    ensures
        crate::auth::opt_view(r) == cookie_in(crate::text::split_on(header@, ';'), name@),
{
    let pieces = crate::text::split_text(header, ';');
    let mut i: usize = pieces.len();
    let ghost all = crate::text::views(pieces@);
    assert(all.take(i as int) =~= all);
    while i > 0
        invariant
            i <= pieces.len(),
            all == crate::text::views(pieces@),
            all == crate::text::split_on(header@, ';'),
            cookie_in(all, name@) == cookie_in(all.take(i as int), name@),
        decreases i,
    {
        let ghost prefix = all.take(i as int);
        assert(prefix.drop_last() =~= all.take(i - 1));
        assert(prefix.last() == pieces@[i - 1]@);
        let p = crate::text::trim_text(pieces[i - 1].as_str());
        proof {
            lemma_first_index_of(p@, '=');
        }
        match find_first(p.as_str(), '=') {
            Some(k) => {
                assert(first_index_of(p@, '=') == Some(k as int));
                assert(p@ == crate::text::trimmed(prefix.last()));
                let key = p.substring_char(0, k);
                assert(key@ =~= p@.take(k as int));
                if crate::text::text_eq(key, name) {
                    let n = p.unicode_len();
                    let v = p.substring_char(k + 1, n).to_owned();
                    assert(v@ =~= p@.skip(k + 1));
                    return Some(v);
                }
                assert(cookie_pair(prefix.last()) == Some((p@.take(k as int), p@.skip(k + 1))));
            },
            None => {
                assert(cookie_pair(prefix.last()) is None);
            },
        }
        i = i - 1;
    }
    None
}

} // verus!

use vstd::prelude::*;
use crate::text::{parse_usize, usize_parse};

verus! {

/// The largest request body the site accepts, read from its setting: an
/// unsigned decimal number.
pub fn max_content_len_from(text: &str) -> (r: Option<usize>)
    ensures
        r == usize_parse(text@),
{
    parse_usize(text)
}

/// The address the identity provider sends the browser back to after a
/// login: the configured base followed by `/post-login`.
pub fn post_login_redirect_url(base: String) -> (r: String)
    ensures
        r@ == base@ + "/post-login"@,
{
    let mut r = base;
    r.append("/post-login");
    r
}

} // verus!

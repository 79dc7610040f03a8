//! `Set-Cookie` header values, written by the `cookie` crate as `axum_extra`
//! hands it on.

use vstd::prelude::*;
use axum_extra::extract::cookie::Cookie;

verus! {

/// To which requests from other sites a cookie is attached.
#[derive(Debug, Clone, Copy, PartialEq, Eq, Structural)]
pub enum SameSite {
    /// Never.
    Strict,
    /// Only when the user navigates to the site.
    Lax,
    /// Always; the cookie is then marked as secure.
    Unrestricted,
}

/// The `Set-Cookie` header value that the `cookie` crate writes for a cookie
/// with this name, value, path, maximal age in seconds, same-site policy and
/// `HttpOnly` flag. Nothing is percent-encoded.
pub uninterp spec fn cookie_text(
    name: Seq<char>,
    value: Seq<char>,
    path: Seq<char>,
    max_age: i64,
    same_site: SameSite,
    http_only: bool,
) -> Seq<char>;

/// `Cookie::build`, the builder's `path`, `max_age`, `same_site` and
/// `http_only`, then its `to_string`: writes the cookie as a `Set-Cookie`
/// header value. The text depends on the arguments alone.
#[verifier::external_body]
pub(crate) fn write_cookie(
    name: &str,
    value: &str,
    path: &str,
    max_age: i64,
    same_site: SameSite,
    http_only: bool,
) -> (r: String)
    ensures
        r@ == cookie_text(name@, value@, path@, max_age, same_site, http_only),
{
    let policy = match same_site {
        SameSite::Strict => axum_extra::extract::cookie::SameSite::Strict,
        SameSite::Lax => axum_extra::extract::cookie::SameSite::Lax,
        SameSite::Unrestricted => axum_extra::extract::cookie::SameSite::None,
    };
    Cookie::build((name, value)).path(path).max_age(time::Duration::seconds(max_age)).same_site(
        policy,
    ).http_only(http_only).to_string()
}

} // verus!

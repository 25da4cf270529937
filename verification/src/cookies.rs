//! The cookies that keep a visitor's session and tracker id.
use vstd::prelude::*;
use crate::text::{decimal, string_of, chars_of};

verus! {

/// Name of the cookie that holds the session id.
pub const SESSION_KEY: &'static str = "fastn-sid";

/// Name of the cookie that holds the tracker id.
pub const TRACKER_KEY: &'static str = "fastn-tid";

/// Lifetime of both cookies, in seconds (400 days).
pub const COOKIE_MAX_AGE_SECONDS: u32 = 34560000;

/// The `Host` header of a request.
#[derive(Debug, PartialEq)]
pub struct Host(pub String);

/// The `SameSite` attribute of a cookie.
#[derive(Debug, Clone, Copy, PartialEq)]
pub enum SameSite {
    Strict,
    Lax,
}

/// Why a cookie could not be made.
#[derive(Debug, PartialEq)]
pub enum CookieError {
    /// The cookie text holds a character that a header value cannot hold.
    InvalidHeaderValue,
}

#[verifier::external_type_specification]
#[verifier::external_body]
pub struct ExInvalidHeaderValue(http::header::InvalidHeaderValue);

/// `i` is the position of the first `:` in `h`.
pub open spec fn is_first_colon(h: Seq<char>, i: int) -> bool {
    &&& 0 <= i < h.len()
    &&& h[i] == ':'
    &&& forall|j: int| 0 <= j < i ==> h[j] != ':'
}

/// The host without its port: everything before the first `:`.
pub open spec fn host_without_port(h: Seq<char>) -> Seq<char> {
    if exists|i: int| is_first_colon(h, i) {
        h.take(choose|i: int| is_first_colon(h, i))
    } else {
        h
    }
}

/// The text of a `SameSite` value.
pub open spec fn same_site_text(s: SameSite) -> Seq<char> {
    match s {
        SameSite::Strict => "Strict"@,
        SameSite::Lax => "Lax"@,
    }
}

/// A domain without one leading dot.
pub open spec fn without_leading_dot(d: Seq<char>) -> Seq<char> {
    if d.len() > 0 && d[0] == '.' {
        d.drop_first()
    } else {
        d
    }
}

/// The `Set-Cookie` text of a cookie with a same-site policy, a path, a
/// domain and a lifetime.
pub open spec fn set_cookie_text(
    name: Seq<char>,
    value: Seq<char>,
    same_site: SameSite,
    path: Seq<char>,
    domain: Seq<char>,
    max_age: nat,
) -> Seq<char> {
    name + "="@ + value + "; SameSite="@ + same_site_text(same_site) + "; Path="@ + path
        + "; Domain="@ + without_leading_dot(domain) + "; Max-Age="@ + decimal(max_age)
}

/// A character that a header value can hold: a tab, or anything from space
/// on but DEL. (Characters beyond ASCII are encoded as bytes from 0x80 on,
/// which a header value can hold.)
pub open spec fn header_char_ok(c: char) -> bool {
    c == '\t' || (32 <= (c as u32) && (c as u32) != 127)
}

/// A text that a header value can hold.
pub open spec fn header_text_ok(s: Seq<char>) -> bool {
    forall|i: int| 0 <= i < s.len() ==> header_char_ok(s[i])
}

/// The `Set-Cookie` text of a cookie.
///
/// Calls `cookie::Cookie::build` with the name and value, sets domain, path,
/// lifetime and same-site policy, and formats the cookie with `Display`. As
/// cookie 0.18's source writes it, that text is `name=value`, then
/// `; SameSite=`, `; Path=`, `; Domain=` (with one leading dot dropped) and
/// `; Max-Age=` with the lifetime in decimal, in that order.
#[verifier::external_body]
fn cookie_text(
    name: &str,
    value: &str,
    same_site: SameSite,
    path: &str,
    domain: String,
    max_age_seconds: u32,
) -> (r: String)
    ensures
        r@ == set_cookie_text(name@, value@, same_site, path@, domain@, max_age_seconds as nat),
{
    let policy = match same_site {
        SameSite::Strict => cookie::SameSite::Strict,
        SameSite::Lax => cookie::SameSite::Lax,
    };
    cookie::Cookie::build((name.to_string(), value.to_string()))
        .domain(domain)
        .path(path.to_string())
        .max_age(cookie::time::Duration::seconds(max_age_seconds as i64))
        .same_site(policy)
        .build()
        .to_string()
}

/// Checks that a text can be a header value.
///
/// Calls `http::HeaderValue::from_str`, which accepts a text when every byte
/// of it is a tab, or from 32 on but 127.
#[verifier::external_body]
fn check_header_value(text: &str) -> (r: Result<(), http::header::InvalidHeaderValue>)
    ensures
        r is Ok <==> header_text_ok(text@),
{
    match http::HeaderValue::from_str(text) {
        Ok(_) => Ok(()),
        Err(e) => Err(e),
    }
}

/// The host without its port: everything before the first `:`.
pub fn without_port(host: &Host) -> (r: String)
    ensures
        r@ == host_without_port(host.0@),
{
    let h = chars_of(host.0.as_str());
    let mut i: usize = 0;
    while i < h.len()
        invariant
            0 <= i <= h.len(),
            h@ == host.0@,
            forall|j: int| 0 <= j < i ==> h@[j] != ':',
        decreases h.len() - i,
    {
        if h[i] == ':' {
            assert(is_first_colon(h@, i as int));
            proof {
                let c = choose|k: int| is_first_colon(h@, k);
                if c < i {
                    assert(h@[c] != ':');
                } else if c > i {
                    assert(h@[i as int] != ':');
                }
            }
            let mut before: Vec<char> = Vec::new();
            let mut k: usize = 0;
            while k < i
                invariant
                    0 <= k <= i,
                    i < h.len(),
                    before@ == h@.take(k as int),
                decreases i - k,
            {
                before.push(h[k]);
                k = k + 1;
                assert(before@ =~= h@.take(k as int));
            }
            return string_of(&before);
        }
        i = i + 1;
    }
    string_of(&h)
}

/// A cookie's `Set-Cookie` text, checked to be a valid header value.
fn header_cookie(name: &str, value: &str, host: &Host) -> (r: Result<String, CookieError>)
    ensures
        match r {
            Ok(s) => s@ == set_cookie_text(
                name@,
                value@,
                SameSite::Strict,
                "/"@,
                host_without_port(host.0@),
                COOKIE_MAX_AGE_SECONDS as nat,
            ) && header_text_ok(s@),
            Err(_) => !header_text_ok(
                set_cookie_text(
                    name@,
                    value@,
                    SameSite::Strict,
                    "/"@,
                    host_without_port(host.0@),
                    COOKIE_MAX_AGE_SECONDS as nat,
                ),
            ),
        },
{
    let domain = without_port(host);
    let text = cookie_text(name, value, SameSite::Strict, "/", domain, COOKIE_MAX_AGE_SECONDS);
    match check_header_value(text.as_str()) {
        Ok(()) => Ok(text),
        Err(_) => Err(CookieError::InvalidHeaderValue),
    }
}

/// The text of the tracker cookie for tracker id `tid`, on the request's host.
pub open spec fn tracker_cookie_text(tid: Seq<char>, host: Seq<char>) -> Seq<char> {
    set_cookie_text(
        TRACKER_KEY@,
        tid,
        SameSite::Strict,
        "/"@,
        host_without_port(host),
        COOKIE_MAX_AGE_SECONDS as nat,
    )
}

/// The text of the session cookie for session id `sid`, on the request's host.
pub open spec fn session_cookie_text(sid: Seq<char>, host: Seq<char>) -> Seq<char> {
    set_cookie_text(
        SESSION_KEY@,
        sid,
        SameSite::Strict,
        "/"@,
        host_without_port(host),
        COOKIE_MAX_AGE_SECONDS as nat,
    )
}

/// The `Set-Cookie` header value that stores the tracker id `tid` for the
/// request's domain (the host without its port), for all paths, for 400
/// days, sent to this site only.
pub fn tracker_cookie(tid: &str, host: &Host) -> (r: Result<String, CookieError>)
    ensures
        match r {
            Ok(s) => s@ == tracker_cookie_text(tid@, host.0@) && header_text_ok(s@),
            Err(_) => !header_text_ok(tracker_cookie_text(tid@, host.0@)),
        },
{
    header_cookie(TRACKER_KEY, tid, host)
}

/// The `Set-Cookie` header value that stores the session id `sid` for the
/// request's domain (the host without its port), for all paths, for 400
/// days, sent to this site only.
pub fn session_cookie(sid: &str, host: &Host) -> (r: Result<String, CookieError>)
    ensures
        match r {
            Ok(s) => s@ == session_cookie_text(sid@, host.0@) && header_text_ok(s@),
            Err(_) => !header_text_ok(session_cookie_text(sid@, host.0@)),
        },
{
    header_cookie(SESSION_KEY, sid, host)
}

} // verus!

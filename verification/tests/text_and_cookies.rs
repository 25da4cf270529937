use subscription::cookies::{session_cookie, tracker_cookie, without_port, CookieError, Host};
use subscription::text::{decimal_text, replace_all, signed_decimal_text};

#[test]
fn replace_all_scans_left_to_right() {
    assert_eq!(replace_all("a{x}b{x}", "{x}", "1"), "a1b1");
    assert_eq!(replace_all("aaa", "aa", "b"), "ba");
    assert_eq!(replace_all("{x", "{x}", "1"), "{x");
    assert_eq!(replace_all("", "{x}", "1"), "");
    assert_eq!(replace_all("abc", "", "z"), "abc");
    assert_eq!(replace_all("héllo {n}!", "{n}", "wörld"), "héllo wörld!");
}

#[test]
fn decimals() {
    assert_eq!(decimal_text(0), "0");
    assert_eq!(decimal_text(34560000), "34560000");
    assert_eq!(decimal_text(u64::MAX), "18446744073709551615");
    assert_eq!(signed_decimal_text(-12), "-12");
    assert_eq!(signed_decimal_text(i64::MAX), "9223372036854775807");
}

#[test]
fn host_without_its_port() {
    assert_eq!(without_port(&Host("example.com:8000".to_string())), "example.com");
    assert_eq!(without_port(&Host("example.com".to_string())), "example.com");
    assert_eq!(without_port(&Host("a:b:c".to_string())), "a");
    assert_eq!(without_port(&Host(":80".to_string())), "");
}

#[test]
fn tracker_cookie_text() {
    let c = tracker_cookie("abc-123", &Host("example.com:8000".to_string()));
    assert_eq!(
        c,
        Ok("fastn-tid=abc-123; SameSite=Strict; Path=/; Domain=example.com; Max-Age=34560000".to_string())
    );
}

#[test]
fn session_cookie_text_drops_one_leading_dot() {
    let c = session_cookie("sid", &Host(".example.com".to_string()));
    assert_eq!(
        c,
        Ok("fastn-sid=sid; SameSite=Strict; Path=/; Domain=example.com; Max-Age=34560000".to_string())
    );
}

#[test]
fn cookie_with_a_control_character_is_refused() {
    assert_eq!(tracker_cookie("a\nb", &Host("example.com".to_string())), Err(CookieError::InvalidHeaderValue));
    assert_eq!(session_cookie("a\u{7f}", &Host("example.com".to_string())), Err(CookieError::InvalidHeaderValue));
    assert!(tracker_cookie("a\tb", &Host("exämple.com".to_string())).is_ok());
}

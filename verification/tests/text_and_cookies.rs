use chronicle::cookies::{
    clear_auth_cookies, cookie_value, format_clear_cookie, format_cookie, REFRESH_COOKIE_NAME, SESSION_COOKIE_NAME,
};
use chronicle::errors::AppError;
use chronicle::text::{
    has_prefix, int_to_text, parse_i64, parse_usize, split_text, text_eq, trim_text,
};

#[test]
fn int_to_text_writes_decimal() {
    assert_eq!(int_to_text(0), "0");
    assert_eq!(int_to_text(7), "7");
    assert_eq!(int_to_text(1234), "1234");
    assert_eq!(int_to_text(-5), "-5");
    assert_eq!(int_to_text(i64::MIN), "-9223372036854775808");
    assert_eq!(int_to_text(i64::MAX), "9223372036854775807");
}

#[test]
fn parse_i64_accepts_what_std_accepts() {
    for s in ["42", "-7", "+3", "0", "007", "-9223372036854775808", "9223372036854775807"] {
        assert_eq!(parse_i64(s), s.parse::<i64>().ok(), "{s}");
    }
    for s in ["", "-", "+", "12a", " 1", "1 ", "9223372036854775808", "-9223372036854775809", "1.5", "--1", "٣"] {
        assert_eq!(parse_i64(s), None, "{s}");
        assert!(s.parse::<i64>().is_err());
    }
}

#[test]
fn parse_reads_back_formatted_integers() {
    for n in [0i64, 1, -1, 99, -1000, 123456789, i64::MIN, i64::MAX] {
        assert_eq!(parse_i64(&int_to_text(n)), Some(n));
    }
}

#[test]
fn parse_usize_accepts_what_std_accepts() {
    for s in ["1048576", "+5", "0"] {
        assert_eq!(parse_usize(s), s.parse::<usize>().ok());
    }
    for s in ["", "-1", "+", "1k", "99999999999999999999999"] {
        assert_eq!(parse_usize(s), None, "{s}");
    }
}

#[test]
fn split_text_keeps_empty_pieces() {
    assert_eq!(split_text("/a//b/", '/'), vec!["", "a", "", "b", ""]);
    assert_eq!(split_text("", '/'), vec![""]);
    assert_eq!(split_text("abc", '/'), vec!["abc"]);
}

#[test]
fn trim_text_drops_unicode_white_space() {
    assert_eq!(trim_text("  https://x.se/a \n"), "https://x.se/a");
    assert_eq!(trim_text("\u{3000}\u{a0}mid dle\u{2029}"), "mid dle");
    assert_eq!(trim_text(" \t "), "");
    assert_eq!(trim_text("å"), "å");
}

#[test]
fn prefix_and_equality() {
    assert!(has_prefix("https://a", "https://"));
    assert!(!has_prefix("http://a", "https://"));
    assert!(!has_prefix("htt", "https://"));
    assert!(text_eq("wiki", "wiki"));
    assert!(!text_eq("wiki", "wik"));
}

#[test]
fn format_cookie_writes_the_set_cookie_line() {
    let h = format_cookie("__Host-session_token", "abc.def", 3600).unwrap();
    assert_eq!(
        h.as_bytes(),
        b"__Host-session_token=abc.def; Path=/; Max-Age=3600; Secure; HttpOnly; SameSite=Strict"
    );
}

#[test]
fn format_cookie_refuses_control_characters() {
    assert_eq!(format_cookie("a", "x\ny", 1).unwrap_err(), AppError::InvalidHeaderValue);
    assert_eq!(format_cookie("a", "x\u{7f}", 1).unwrap_err(), AppError::InvalidHeaderValue);
    // Tabs and characters above ASCII are allowed in header values.
    let h = format_cookie("a", "x\tå", -2).unwrap();
    assert_eq!(h.as_bytes(), "a=x\tå; Path=/; Max-Age=-2; Secure; HttpOnly; SameSite=Strict".as_bytes());
}

#[test]
fn clear_auth_cookies_expires_both_cookies() {
    let v = clear_auth_cookies().unwrap();
    assert_eq!(v.len(), 2);
    assert_eq!(
        v[0].to_str().unwrap(),
        format!("{SESSION_COOKIE_NAME}=; Path=/; Max-Age=0; Secure; HttpOnly; SameSite=Strict")
    );
    assert_eq!(
        v[1].to_str().unwrap(),
        "__Host-refresh_token=; Path=/; Max-Age=0; Secure; HttpOnly; SameSite=Strict"
    );
    assert_eq!(format_clear_cookie(REFRESH_COOKIE_NAME).unwrap(), v[1]);
}

#[test]
fn cookie_value_finds_a_named_cookie() {
    let header = "theme=dark; session_token=abc.def; other=1";
    assert_eq!(cookie_value(header, "session_token"), Some("abc.def".to_string()));
    assert_eq!(cookie_value(header, "theme"), Some("dark".to_string()));
    assert_eq!(cookie_value(header, "missing"), None);
}

#[test]
fn cookie_value_takes_the_last_pair_and_keeps_equals_signs() {
    assert_eq!(cookie_value("a=1; a=2", "a"), Some("2".to_string()));
    assert_eq!(cookie_value("t=x=y", "t"), Some("x=y".to_string()));
    assert_eq!(cookie_value("novalue; t=", "t"), Some("".to_string()));
    assert_eq!(cookie_value("", "t"), None);
}

use blog_api::http::StatusCode;
use blog_api::text::{push_decimal, push_json_string, same_text, strip_prefix};

#[test]
fn decimal_text_of_numbers() {
    for (n, expected) in [(0usize, "0"), (7, "7"), (10, "10"), (86400, "86400"), (1700000000, "1700000000")] {
        let mut s = String::from("x=");
        push_decimal(&mut s, n);
        assert_eq!(s, format!("x={}", expected));
    }
    let mut s = String::new();
    push_decimal(&mut s, usize::MAX);
    assert_eq!(s, usize::MAX.to_string());
}

#[test]
fn json_strings_match_serde_json() {
    let samples = [
        "plain",
        "",
        "quote \" and backslash \\",
        "line\nbreak\ttab\rreturn",
        "\u{8}\u{c}\u{1}\u{1f}\u{7f}",
        "héllo wörld ✓",
        "slash / stays",
    ];
    for s in samples {
        let mut out = String::new();
        push_json_string(&mut out, s);
        assert_eq!(out, serde_json::to_string(s).unwrap(), "for {:?}", s);
    }
}

#[test]
fn control_characters_use_lower_case_hex() {
    let mut out = String::new();
    push_json_string(&mut out, "\u{1b}");
    assert_eq!(out, "\"\\u001b\"");
}

#[test]
fn same_text_compares_characters() {
    assert!(same_text("admin", "admin"));
    assert!(!same_text("admin", "Admin"));
    assert!(!same_text("admin", "admins"));
    assert!(!same_text("", "a"));
    assert!(same_text("", ""));
    assert!(same_text("blocked", "blocked"));
}

#[test]
fn strip_prefix_cuts_by_characters() {
    assert_eq!(strip_prefix("Bearer abc", "Bearer "), Some("abc"));
    assert_eq!(strip_prefix("Bearer ", "Bearer "), Some(""));
    assert_eq!(strip_prefix("Bear", "Bearer "), None);
    assert_eq!(strip_prefix("bearer abc", "Bearer "), None);
    assert_eq!(strip_prefix("ü-rest", "ü"), Some("-rest"));
}

#[test]
fn status_codes_have_their_http_numbers() {
    assert_eq!(StatusCode::NoContent.as_u16(), 204);
    assert_eq!(StatusCode::BadRequest.as_u16(), 400);
    assert_eq!(StatusCode::Unauthorized.as_u16(), 401);
    assert_eq!(StatusCode::Forbidden.as_u16(), 403);
    assert_eq!(StatusCode::NotFound.as_u16(), 404);
    assert_eq!(StatusCode::InternalServerError.as_u16(), 500);
}

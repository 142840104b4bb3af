use auth_gateway::payload::parse_payload;

#[test]
fn parses_username_only() {
    let p = parse_payload("{\"username\":\"alice\"}").unwrap();
    assert_eq!(p.username, "alice");
    assert_eq!(p.password, None);
}

#[test]
fn parses_username_and_password() {
    let p = parse_payload("{\"username\":\"alice\",\"password\":\"secret\"}").unwrap();
    assert_eq!(p.username, "alice");
    assert_eq!(p.password.as_deref(), Some("secret"));
}

#[test]
fn parses_members_in_either_order() {
    let p = parse_payload("{\"password\":\"secret\",\"username\":\"alice\"}").unwrap();
    assert_eq!(p.username, "alice");
    assert_eq!(p.password.as_deref(), Some("secret"));
}

#[test]
fn parses_with_whitespace() {
    let p = parse_payload(" \t\r\n{ \"username\" :\n\"alice\" ,\t\"password\" : \"s\" } ").unwrap();
    assert_eq!(p.username, "alice");
    assert_eq!(p.password.as_deref(), Some("s"));
}

#[test]
fn null_password_counts_as_absent() {
    let p = parse_payload("{\"username\":\"alice\",\"password\":null}").unwrap();
    assert_eq!(p.username, "alice");
    assert_eq!(p.password, None);
}

#[test]
fn decodes_string_escapes() {
    let p = parse_payload("{\"username\":\"a\\\"b\",\"password\":\"x\\\\y\\n\\t\\r\\b\\f\\/\"}")
        .unwrap();
    assert_eq!(p.username, "a\"b");
    assert_eq!(p.password.as_deref(), Some("x\\y\n\t\r\u{0008}\u{000C}/"));
}

#[test]
fn rejects_empty_body() {
    assert!(parse_payload("").is_none());
}

#[test]
fn rejects_non_object_body() {
    assert!(parse_payload("\"username\"").is_none());
    assert!(parse_payload("not json at all").is_none());
}

#[test]
fn rejects_empty_object() {
    assert!(parse_payload("{}").is_none());
}

#[test]
fn rejects_missing_username() {
    assert!(parse_payload("{\"password\":\"secret\"}").is_none());
}

#[test]
fn rejects_empty_username() {
    assert!(parse_payload("{\"username\":\"\"}").is_none());
}

#[test]
fn rejects_null_username() {
    assert!(parse_payload("{\"username\":null}").is_none());
}

#[test]
fn rejects_unknown_key() {
    assert!(parse_payload("{\"username\":\"alice\",\"extra\":\"x\"}").is_none());
}

#[test]
fn rejects_duplicate_key() {
    assert!(parse_payload("{\"username\":\"a\",\"username\":\"b\"}").is_none());
}

#[test]
fn rejects_trailing_text() {
    assert!(parse_payload("{\"username\":\"alice\"}x").is_none());
    assert!(parse_payload("{\"username\":\"alice\"},").is_none());
}

#[test]
fn rejects_unterminated_string() {
    assert!(parse_payload("{\"username\":\"alice").is_none());
}

#[test]
fn rejects_unknown_escape() {
    assert!(parse_payload("{\"username\":\"a\\u0061\"}").is_none());
    assert!(parse_payload("{\"username\":\"a\\q\"}").is_none());
}

#[test]
fn rejects_raw_control_character() {
    assert!(parse_payload("{\"username\":\"a\u{0001}b\"}").is_none());
}

#[test]
fn rejects_trailing_comma() {
    assert!(parse_payload("{\"username\":\"alice\",}").is_none());
}

#[test]
fn rejects_third_member() {
    assert!(
        parse_payload("{\"username\":\"a\",\"password\":\"b\",\"password\":\"c\"}").is_none()
    );
}

use auth_gateway::response::{render_auth_response, render_user_response, AuthOutcome, UserSnapshot};
use auth_gateway::text::json_escape;

#[test]
fn get_success_echoes_the_snapshot() {
    let snapshot = UserSnapshot { enabled: true, status: "CONFIRMED".to_string() };
    let r = render_user_response("us-east-1_pool", &snapshot);
    assert_eq!(r.status, 200);
    assert!(r.json);
    assert_eq!(
        r.body,
        "{\"pool-id\":\"us-east-1_pool\",\"user-enabled\":true,\"user-status\":\"CONFIRMED\"}"
    );
}

#[test]
fn get_success_renders_a_disabled_user() {
    let snapshot = UserSnapshot { enabled: false, status: "UNCONFIRMED".to_string() };
    let r = render_user_response("p", &snapshot);
    assert_eq!(r.status, 200);
    assert_eq!(
        r.body,
        "{\"pool-id\":\"p\",\"user-enabled\":false,\"user-status\":\"UNCONFIRMED\"}"
    );
}

#[test]
fn user_response_escapes_its_values() {
    let snapshot = UserSnapshot { enabled: true, status: "A\"B\\C".to_string() };
    let r = render_user_response("p\"q", &snapshot);
    assert_eq!(
        r.body,
        "{\"pool-id\":\"p\\\"q\",\"user-enabled\":true,\"user-status\":\"A\\\"B\\\\C\"}"
    );
}

#[test]
fn auth_success_echoes_the_result() {
    let outcome = AuthOutcome {
        auth_result: Some("tokens granted".to_string()),
        challenge_name: None,
        session: None,
    };
    let r = render_auth_response(&outcome);
    assert_eq!(r.status, 200);
    assert!(r.json);
    assert_eq!(
        r.body,
        "{\"auth-result\":\"tokens granted\",\"challenge-name\":\"\",\"session\":null}"
    );
}

#[test]
fn auth_challenge_echoes_name_and_session() {
    let outcome = AuthOutcome {
        auth_result: None,
        challenge_name: Some("SMS_MFA".to_string()),
        session: Some("sess-123".to_string()),
    };
    let r = render_auth_response(&outcome);
    assert_eq!(
        r.body,
        "{\"auth-result\":\"\",\"challenge-name\":\"SMS_MFA\",\"session\":\"sess-123\"}"
    );
}

#[test]
fn same_snapshot_renders_identically() {
    let snapshot = UserSnapshot { enabled: true, status: "CONFIRMED".to_string() };
    let first = render_user_response("p", &snapshot);
    let second = render_user_response("p", &snapshot);
    assert_eq!(first.status, second.status);
    assert_eq!(first.body, second.body);
    assert_eq!(first.json, second.json);
}

#[test]
fn json_escape_handles_quotes_and_backslashes() {
    assert_eq!(json_escape("plain"), "plain");
    assert_eq!(json_escape("a\"b\\c"), "a\\\"b\\\\c");
}

#[test]
fn json_escape_handles_control_characters() {
    assert_eq!(json_escape("\n\r\t\u{0008}\u{000C}"), "\\n\\r\\t\\b\\f");
    assert_eq!(json_escape("\u{0001}\u{001f}"), "\\u0001\\u001f");
}

use auth_gateway::gateway::{plan_request, select_pool, GatewayAction, HttpMethod};

fn pool() -> Option<String> {
    Some("us-east-1_pool".to_string())
}

fn body(text: &str) -> Option<String> {
    Some(text.to_string())
}

#[test]
fn unresolved_pool_gives_500_whatever_the_request() {
    for method in [HttpMethod::Get, HttpMethod::Post, HttpMethod::Other] {
        for b in [None, body("{\"username\":\"alice\"}"), body("garbage")] {
            match plan_request(&None, method, &b) {
                GatewayAction::Reply(r) => {
                    assert_eq!(r.status, 500);
                    assert_eq!(r.body, "UsersPoolNotFound");
                    assert!(!r.json);
                }
                _ => panic!("expected an immediate reply"),
            }
        }
    }
}

#[test]
fn absent_body_gives_400() {
    for method in [HttpMethod::Get, HttpMethod::Post, HttpMethod::Other] {
        match plan_request(&pool(), method, &None) {
            GatewayAction::Reply(r) => {
                assert_eq!(r.status, 400);
                assert_eq!(r.body, "PayloadDoesntExist");
                assert!(!r.json);
            }
            _ => panic!("expected an immediate reply"),
        }
    }
}

#[test]
fn undecodable_body_gives_400() {
    for b in ["", "plainly not json", "{\"username\":}", "{\"password\":\"only\"}"] {
        match plan_request(&pool(), HttpMethod::Get, &body(b)) {
            GatewayAction::Reply(r) => {
                assert_eq!(r.status, 400);
                assert_eq!(r.body, "PayloadDoesntExist");
            }
            _ => panic!("expected an immediate reply"),
        }
    }
}

#[test]
fn get_fetches_exactly_the_decoded_user() {
    match plan_request(&pool(), HttpMethod::Get, &body("{\"username\":\"alice\"}")) {
        GatewayAction::FetchUser { pool_id, username } => {
            assert_eq!(pool_id, "us-east-1_pool");
            assert_eq!(username, "alice");
        }
        _ => panic!("expected a user fetch"),
    }
}

#[test]
fn post_without_password_gives_400() {
    match plan_request(&pool(), HttpMethod::Post, &body("{\"username\":\"alice\"}")) {
        GatewayAction::Reply(r) => {
            assert_eq!(r.status, 400);
            assert_eq!(r.body, "NotFoundPasswordForAuth");
            assert!(!r.json);
        }
        _ => panic!("expected an immediate reply"),
    }
}

#[test]
fn post_authenticates_with_exactly_the_decoded_credentials() {
    match plan_request(
        &pool(),
        HttpMethod::Post,
        &body("{\"username\":\"alice\",\"password\":\"secret\"}"),
    ) {
        GatewayAction::Authenticate { pool_id, username, password } => {
            assert_eq!(pool_id, "us-east-1_pool");
            assert_eq!(username, "alice");
            assert_eq!(password, "secret");
        }
        _ => panic!("expected an authentication"),
    }
}

#[test]
fn unsupported_method_gives_empty_405() {
    match plan_request(&pool(), HttpMethod::Other, &body("{\"username\":\"alice\"}")) {
        GatewayAction::Reply(r) => {
            assert_eq!(r.status, 405);
            assert_eq!(r.body, "");
            assert!(!r.json);
        }
        _ => panic!("expected an immediate reply"),
    }
}

#[test]
fn same_get_request_plans_identically() {
    let b = body("{\"username\":\"alice\"}");
    let first = plan_request(&pool(), HttpMethod::Get, &b);
    let second = plan_request(&pool(), HttpMethod::Get, &b);
    match (first, second) {
        (
            GatewayAction::FetchUser { pool_id: p1, username: u1 },
            GatewayAction::FetchUser { pool_id: p2, username: u2 },
        ) => {
            assert_eq!(p1, p2);
            assert_eq!(u1, u2);
        }
        _ => panic!("expected two user fetches"),
    }
}

#[test]
fn select_pool_of_empty_page_is_none() {
    assert_eq!(select_pool(&vec![]), None);
}

#[test]
fn select_pool_takes_the_last_record() {
    let ids = vec![
        Some("pool-a".to_string()),
        Some("pool-b".to_string()),
        Some("pool-c".to_string()),
    ];
    assert_eq!(select_pool(&ids), Some("pool-c".to_string()));
}

#[test]
fn select_pool_keeps_a_missing_last_id() {
    let ids = vec![Some("pool-a".to_string()), None];
    assert_eq!(select_pool(&ids), None);
}

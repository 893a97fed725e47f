use api::deploy::{connected_node_endpoint, give_up_error};
use api::errors::RouteError;
use api::deploy::{
    deploy_request_body, node_bundle_endpoint, RetryDecision, Retries, FILES_AVAILABLE_SECS,
    MAX_RETRY_COUNT,
};
use api::types::{Node, NodeKind};

#[test]
fn request_body_is_json_with_link_and_kind() {
    assert_eq!(
        deploy_request_body("http://localhost:9000/b/x.zip?sig=1", NodeKind::Mobile),
        "{\"bundle_link\":\"http://localhost:9000/b/x.zip?sig=1\",\"kind\":\"Mobile\"}"
    );
    assert_eq!(
        deploy_request_body("a\"b\\c\nd\u{1}", NodeKind::Dekstop),
        "{\"bundle_link\":\"a\\\"b\\\\c\\nd\\u0001\",\"kind\":\"Dekstop\"}"
    );
}

#[test]
fn request_body_parses_as_the_same_json() {
    let body = deploy_request_body("https://s3/x?a=b&c=d", NodeKind::Web);
    let value: serde_json::Value = serde_json::from_str(&body).unwrap();
    assert_eq!(value["bundle_link"], "https://s3/x?a=b&c=d");
    assert_eq!(value["kind"], "Web");
}

fn node(url: &str) -> Node {
    Node { id: [3; 16], url: url.to_string(), kind: NodeKind::Web }
}

#[test]
fn bundle_endpoint_replaces_the_path() {
    assert_eq!(
        node_bundle_endpoint(&node("http://10.0.0.5:8080/some/path?q=1")),
        Some("http://10.0.0.5:8080/bundle".to_string())
    );
    assert_eq!(node_bundle_endpoint(&node("http://node.local")), Some("http://node.local/bundle".to_string()));
    assert_eq!(node_bundle_endpoint(&node("not a url")), None);
    assert_eq!(node_bundle_endpoint(&node("mailto:someone@example.com")), None);
    assert_eq!(
        node_bundle_endpoint(&node("http://10.0.0.5:8080/a/b/")),
        Some("http://10.0.0.5:8080/bundle".to_string())
    );
    assert_eq!(
        node_bundle_endpoint(&node("https://user@node.example:443/x")),
        Some("https://user@node.example/bundle".to_string())
    );
}

#[test]
fn links_live_one_hour() {
    assert_eq!(FILES_AVAILABLE_SECS, 3600);
    assert_eq!(MAX_RETRY_COUNT, 5);
}

fn hand_over(statuses: &[&str]) -> (usize, RetryDecision) {
    let mut retries = Retries::new();
    let mut sent = 0;
    for status in statuses {
        retries.start_attempt();
        sent += 1;
        let decision = retries.decide(status);
        if decision != RetryDecision::Retry {
            return (sent, decision);
        }
    }
    (sent, RetryDecision::Retry)
}

#[test]
fn first_success_deploys() {
    assert_eq!(hand_over(&["success"]), (1, RetryDecision::Deployed));
    assert_eq!(hand_over(&["busy", "busy", "success", "busy"]), (3, RetryDecision::Deployed));
    assert_eq!(hand_over(&["e", "e", "e", "e", "e", "success"]), (6, RetryDecision::Deployed));
}

#[test]
fn six_refusals_give_up() {
    assert_eq!(hand_over(&["e"; 10]), (6, RetryDecision::GiveUp));
}

#[test]
fn node_addresses() {
    match connected_node_endpoint(&node("mailto:someone@example.com")) {
        Err(RouteError::Unexpected(m)) => assert_eq!(m, "invalid node address"),
        _ => panic!("expected Unexpected"),
    }
    assert_eq!(connected_node_endpoint(&node("http://a:1/x")).ok(), Some("http://a:1/bundle".to_string()));
    match connected_node_endpoint(&node("not a url")) {
        Err(RouteError::Unexpected(m)) => assert_eq!(m, "invalid node address"),
        _ => panic!("expected Unexpected"),
    }
}

#[test]
fn giving_up_error() {
    let (status, body) = give_up_error().into_response();
    assert_eq!(status, 500);
    assert_eq!(body.code, 5050);
    assert_eq!(body.message, "exceeded max retries for checking deployment status");
}

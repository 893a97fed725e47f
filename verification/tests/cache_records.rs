use api::cache::{disconnect_outcome, node_from_record};
use api::types::{Node, NodeKind};
use api::cache::{deployment_lookup_verdict, deployment_remove_verdict, parse_deployment_record};
use std::collections::HashMap;

use api::cache::{
    deployment_lookup_command, deployment_lookup_result, deployment_record_commands,
    deployment_remove_command, deployment_remove_result, node_lookup_command, node_lookup_result,
    node_remove_command, node_store_command, CacheCommand, FindBy,
};
use api::errors::RouteError;

const BUNDLE: [u8; 16] = [1; 16];
const NODE: [u8; 16] = [2; 16];

/// Runs a command against an in-memory cache, as the cache server would.
fn run(store: &mut HashMap<String, String>, cmd: CacheCommand) -> Option<String> {
    match cmd {
        CacheCommand::Get(k) => store.get(&k).cloned(),
        CacheCommand::Put(k, v) => {
            store.insert(k, v);
            None
        }
        CacheCommand::Del(k) => {
            store.remove(&k);
            None
        }
        CacheCommand::GetDel(k) => store.remove(&k),
    }
}

fn record(store: &mut HashMap<String, String>, bundle: [u8; 16], node: [u8; 16]) {
    for cmd in deployment_record_commands(bundle, node) {
        run(store, cmd);
    }
}

fn lookup(store: &mut HashMap<String, String>, by: FindBy) -> Result<[u8; 16], RouteError> {
    let reply = run(store, deployment_lookup_command(by));
    deployment_lookup_result(reply)
}

fn remove(store: &mut HashMap<String, String>, by: FindBy) -> Result<[u8; 16], RouteError> {
    let reply = run(store, deployment_remove_command(by));
    let (id, cmd) = deployment_remove_result(by, reply)?;
    run(store, cmd);
    Ok(id)
}

fn not_found_text(e: RouteError) -> String {
    match e {
        RouteError::NotFound(m) => m,
        _ => panic!("expected NotFound"),
    }
}

#[test]
fn record_writes_both_directions() {
    let mut store = HashMap::new();
    record(&mut store, BUNDLE, NODE);
    assert_eq!(
        store.get("bundle_deployment:01010101-0101-0101-0101-010101010101").map(String::as_str),
        Some("02020202-0202-0202-0202-020202020202")
    );
    assert_eq!(
        store.get("node_deployment:02020202-0202-0202-0202-020202020202").map(String::as_str),
        Some("01010101-0101-0101-0101-010101010101")
    );
    assert_eq!(store.len(), 2);
}

#[test]
fn lookup_after_record_finds_other_side() {
    let mut store = HashMap::new();
    record(&mut store, BUNDLE, NODE);
    assert_eq!(lookup(&mut store, FindBy::Bundle(BUNDLE)).ok(), Some(NODE));
    assert_eq!(lookup(&mut store, FindBy::Node(NODE)).ok(), Some(BUNDLE));
}

#[test]
fn lookup_without_record_is_not_found() {
    let mut store = HashMap::new();
    let err = lookup(&mut store, FindBy::Bundle(BUNDLE)).err().unwrap();
    assert_eq!(not_found_text(err), "node with this bundle");
}

#[test]
fn lookup_of_corrupted_record_is_not_found() {
    let err = deployment_lookup_result(Some("not a uuid".to_string())).err().unwrap();
    assert_eq!(not_found_text(err), "node with this bundle");
}

#[test]
fn remove_by_bundle_clears_both_records() {
    let mut store = HashMap::new();
    record(&mut store, BUNDLE, NODE);
    assert_eq!(remove(&mut store, FindBy::Bundle(BUNDLE)).ok(), Some(NODE));
    assert!(store.is_empty());
    assert!(lookup(&mut store, FindBy::Node(NODE)).is_err());
}

#[test]
fn remove_by_node_clears_both_records() {
    let mut store = HashMap::new();
    record(&mut store, BUNDLE, NODE);
    assert_eq!(remove(&mut store, FindBy::Node(NODE)).ok(), Some(BUNDLE));
    assert!(store.is_empty());
}

#[test]
fn remove_without_record_is_not_found() {
    let mut store = HashMap::new();
    let err = remove(&mut store, FindBy::Node(NODE)).err().unwrap();
    assert_eq!(not_found_text(err), "node or bundle deployment record");
}

#[test]
fn remove_of_corrupted_record_is_unexpected() {
    match deployment_remove_result(FindBy::Bundle(BUNDLE), Some("garbage".to_string())) {
        Err(RouteError::Unexpected(m)) => {
            assert_eq!(m, "corrupted data for deployment records in cache")
        }
        _ => panic!("expected Unexpected"),
    }
}

#[test]
fn remove_accepts_other_uuid_forms() {
    // the simple (unhyphenated) form is parsed too
    match deployment_remove_result(
        FindBy::Bundle(BUNDLE),
        Some("02020202020202020202020202020202".to_string()),
    ) {
        Ok((id, CacheCommand::Del(k))) => {
            assert_eq!(id, NODE);
            assert_eq!(k, "node_deployment:02020202-0202-0202-0202-020202020202");
        }
        _ => panic!("expected the node"),
    }
}

#[test]
fn node_store_lookup_remove() {
    let mut store = HashMap::new();
    run(&mut store, node_store_command(NODE, "{\"id\":1}".to_string()));
    let reply = run(&mut store, node_lookup_command(NODE));
    assert_eq!(node_lookup_result(reply).ok(), Some("{\"id\":1}".to_string()));
    run(&mut store, node_remove_command(NODE));
    let reply = run(&mut store, node_lookup_command(NODE));
    let err = node_lookup_result(reply).err().unwrap();
    assert_eq!(not_found_text(err), "node with specified id");
}

#[test]
fn node_records_do_not_touch_deployments() {
    let mut store = HashMap::new();
    record(&mut store, BUNDLE, NODE);
    run(&mut store, node_store_command(NODE, "n".to_string()));
    run(&mut store, node_remove_command(NODE));
    assert_eq!(lookup(&mut store, FindBy::Node(NODE)).ok(), Some(BUNDLE));
}

#[test]
fn record_parsing_and_verdicts() {
    assert_eq!(parse_deployment_record(None), None);
    assert_eq!(parse_deployment_record(Some("x".into())), Some(None));
    assert_eq!(
        parse_deployment_record(Some("01010101-0101-0101-0101-010101010101".into())),
        Some(Some(BUNDLE))
    );
    assert_eq!(deployment_lookup_verdict(Some(Some(NODE))).ok(), Some(NODE));
    assert!(deployment_lookup_verdict(Some(None)).is_err());
    match deployment_remove_verdict(FindBy::Node(NODE), Some(Some(BUNDLE))) {
        Ok((id, CacheCommand::Del(k))) => {
            assert_eq!(id, BUNDLE);
            assert_eq!(k, "bundle_deployment:01010101-0101-0101-0101-010101010101");
        }
        _ => panic!("expected the bundle"),
    }
}

/// Whether every bundle record names a node whose record names the bundle back, and conversely.
fn index_consistent(store: &HashMap<String, String>) -> bool {
    store.iter().all(|(k, v)| {
        if let Some(b) = k.strip_prefix("bundle_deployment:") {
            store.get(&format!("node_deployment:{v}")).map(String::as_str) == Some(b)
        } else if let Some(n) = k.strip_prefix("node_deployment:") {
            store.get(&format!("bundle_deployment:{v}")).map(String::as_str) == Some(n)
        } else {
            true
        }
    })
}

#[test]
fn index_stays_consistent() {
    let mut store = HashMap::new();
    record(&mut store, BUNDLE, NODE);
    record(&mut store, [5; 16], [6; 16]);
    run(&mut store, node_store_command(NODE, "n".to_string()));
    assert!(index_consistent(&store));
    remove(&mut store, FindBy::Node([6; 16])).ok().unwrap();
    assert!(index_consistent(&store));
    remove(&mut store, FindBy::Bundle(BUNDLE)).ok().unwrap();
    assert!(index_consistent(&store));
    assert_eq!(store.len(), 1);
}

#[test]
fn recording_a_deployed_bundle_again_leaves_a_stale_record() {
    // the index is consistent only when neither side was deployed before
    let mut store = HashMap::new();
    record(&mut store, BUNDLE, NODE);
    record(&mut store, BUNDLE, [9; 16]);
    assert!(!index_consistent(&store));
}

#[test]
fn corrupted_node_record_is_unexpected() {
    match node_from_record(None) {
        Err(RouteError::Unexpected(m)) => assert_eq!(m, "corrupted data"),
        _ => panic!("expected Unexpected"),
    }
    let node = Node { id: NODE, url: "http://n".into(), kind: NodeKind::Web };
    assert_eq!(node_from_record(Some(node)).ok().map(|n| n.id), Some(NODE));
}

#[test]
fn disconnect_outcomes() {
    match disconnect_outcome(Ok(BUNDLE)) {
        Ok(Some(task)) => assert_eq!(task.bundle_id, BUNDLE),
        _ => panic!("expected a redeploy task"),
    }
    assert!(matches!(disconnect_outcome(Err(RouteError::NotFound("x".into()))), Ok(None)));
    match disconnect_outcome(Err(RouteError::Redis("down".into()))) {
        Err(RouteError::Redis(m)) => assert_eq!(m, "down"),
        _ => panic!("expected the cache error"),
    }
}

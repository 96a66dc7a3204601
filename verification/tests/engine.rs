use cbshell::registry::{ConnectionRecord, Registry, TimeoutPolicy};
use cbshell::resolver::{glob_match, resolve};
use cbshell::EngineError;

fn record(connstr: &str, username: &str) -> ConnectionRecord {
    ConnectionRecord {
        connstr: String::from(connstr),
        username: String::from(username),
        password: String::from("SECRET-REDACTED"),
        active_bucket: None,
        active_scope: None,
        active_collection: None,
        cloud_org: None,
        timeouts: TimeoutPolicy { kv_ms: 2500, query_ms: 75000, management_ms: 75000, search_ms: 75000 },
        cloud_managed: false,
    }
}

fn three_cluster_registry() -> Registry {
    let mut reg = Registry::new();
    reg.register(String::from("prod-a"), record("couchbase://10.0.0.1", "admin")).unwrap();
    reg.register(String::from("prod-b"), record("couchbase://10.0.0.2", "admin")).unwrap();
    reg.register(String::from("staging-1"), record("couchbase://10.0.1.1", "admin")).unwrap();
    reg.set_active(&String::from("prod-a")).unwrap();
    reg
}

#[test]
fn register_duplicate_identifier_fails() {
    let mut reg = Registry::new();
    reg.register(String::from("a"), record("couchbase://x", "u")).unwrap();
    let err = reg.register(String::from("a"), record("couchbase://y", "v")).unwrap_err();
    assert_eq!(err, EngineError::DuplicateIdentifier);
    assert_eq!(reg.len(), 1);
}

#[test]
fn unregister_missing_identifier_fails() {
    let mut reg = Registry::new();
    let err = reg.unregister(&String::from("ghost")).unwrap_err();
    assert_eq!(err, EngineError::NotFound);
}

#[test]
fn get_and_set_active_report_not_found() {
    let mut reg = Registry::new();
    assert_eq!(reg.get(&String::from("a")).unwrap_err(), EngineError::NotFound);
    assert_eq!(reg.set_active(&String::from("a")).unwrap_err(), EngineError::NotFound);
}

#[test]
fn list_keeps_insertion_order() {
    let reg = three_cluster_registry();
    let names: Vec<&str> = reg.list().iter().map(|(k, _)| k.as_str()).collect();
    assert_eq!(names, vec!["prod-a", "prod-b", "staging-1"]);
}

#[test]
fn set_active_bucket_mutates_named_record() {
    let mut reg = three_cluster_registry();
    reg.set_active_bucket(&String::from("prod-b"), String::from("beer-sample")).unwrap();
    let rec = reg.get(&String::from("prod-b")).unwrap();
    assert_eq!(rec.active_bucket.as_deref(), Some("beer-sample"));
    assert!(reg.get(&String::from("prod-a")).unwrap().active_bucket.is_none());
    let err = reg.set_active_bucket(&String::from("ghost"), String::from("b")).unwrap_err();
    assert_eq!(err, EngineError::NotFound);
}

#[test]
fn resolve_without_explicit_targets_returns_active() {
    let reg = three_cluster_registry();
    let targets = resolve(&reg, None, true).unwrap();
    assert_eq!(targets, vec![String::from("prod-a")]);
}

#[test]
fn resolve_missing_literal_fails_not_found() {
    let reg = three_cluster_registry();
    let explicit = vec![String::from("prod-c")];
    let err = resolve(&reg, Some(&explicit), true).unwrap_err();
    assert_eq!(err, EngineError::NotFound);
}

#[test]
fn resolve_unmatched_pattern_fails_when_required() {
    let reg = three_cluster_registry();
    let explicit = vec![String::from("qa-*")];
    let err = resolve(&reg, Some(&explicit), true).unwrap_err();
    assert_eq!(err, EngineError::NoMatchingClusters);
    let empty = resolve(&reg, Some(&explicit), false).unwrap();
    assert!(empty.is_empty());
}

#[test]
fn resolve_pattern_expands_in_registry_order() {
    let reg = three_cluster_registry();
    let explicit = vec![String::from("prod-*")];
    let targets = resolve(&reg, Some(&explicit), true).unwrap();
    assert_eq!(targets, vec![String::from("prod-a"), String::from("prod-b")]);
}

#[test]
fn resolve_deduplicates_in_first_match_order() {
    let reg = three_cluster_registry();
    let explicit = vec![
        String::from("staging-1"),
        String::from("prod-*"),
        String::from("staging-1"),
    ];
    let targets = resolve(&reg, Some(&explicit), true).unwrap();
    assert_eq!(
        targets,
        vec![String::from("staging-1"), String::from("prod-a"), String::from("prod-b")]
    );
}

#[test]
fn unregister_active_cluster_clears_active() {
    let mut reg = three_cluster_registry();
    reg.unregister(&String::from("prod-a")).unwrap();
    assert!(reg.active().is_none());
    let err = resolve(&reg, None, true).unwrap_err();
    assert_eq!(err, EngineError::NoActiveCluster);
}

#[test]
fn unregister_inactive_cluster_keeps_active() {
    let mut reg = three_cluster_registry();
    reg.unregister(&String::from("prod-b")).unwrap();
    assert_eq!(reg.active(), Some(String::from("prod-a")));
    assert_eq!(reg.len(), 2);
}

#[test]
fn empty_registry_without_explicit_target_fails_no_active() {
    let reg = Registry::new();
    let err = resolve(&reg, None, true).unwrap_err();
    assert_eq!(err, EngineError::NoActiveCluster);
}

#[test]
fn glob_match_covers_the_policy() {
    assert!(glob_match("prod-*", "prod-a"));
    assert!(glob_match("prod-*", "prod-"));
    assert!(!glob_match("prod-*", "staging-1"));
    assert!(glob_match("*", ""));
    assert!(glob_match("*", "anything"));
    assert!(glob_match("a*b", "ab"));
    assert!(glob_match("a*b", "axxxb"));
    assert!(!glob_match("a*b", "axc"));
    assert!(glob_match("*-1", "staging-1"));
    assert!(!glob_match("Prod-*", "prod-a"));
    assert!(glob_match("p*d-*", "prod-a"));
    assert!(!glob_match("", "x"));
    assert!(glob_match("", ""));
}

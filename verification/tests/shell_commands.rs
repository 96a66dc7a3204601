use cbshell::commands::{
    Clusters, CommandError, Doc, KvUpsert, ScopesDrop, UseCmd, UseReport,
};
use cbshell::registry::{ConnectionRecord, Registry, TimeoutPolicy};
use cbshell::EngineError;

fn record(connstr: &str, cloud_managed: bool) -> ConnectionRecord {
    ConnectionRecord {
        connstr: String::from(connstr),
        username: String::from("admin"),
        password: String::from("SECRET-REDACTED"),
        active_bucket: None,
        active_scope: None,
        active_collection: None,
        cloud_org: None,
        timeouts: TimeoutPolicy { kv_ms: 2500, query_ms: 75000, management_ms: 30000, search_ms: 75000 },
        cloud_managed,
    }
}

#[test]
fn clusters_lists_rows_with_active_flag() {
    let mut reg = Registry::new();
    reg.register(String::from("east"), record("couchbase://e", false)).unwrap();
    reg.register(String::from("west"), record("couchbase://w", false)).unwrap();
    reg.set_active(&String::from("west")).unwrap();
    let rows = Clusters::new().run(&reg);
    assert_eq!(rows.len(), 2);
    assert_eq!(rows[0].identifier, "east");
    assert!(!rows[0].active);
    assert_eq!(rows[0].connstr, "couchbase://e");
    assert_eq!(rows[0].username, "admin");
    assert_eq!(rows[1].identifier, "west");
    assert!(rows[1].active);
}

#[test]
fn command_names_and_usages_match() {
    assert_eq!(Clusters::new().name(), "clusters");
    assert_eq!(Clusters::new().usage(), "Lists all managed clusters");
    assert_eq!(Doc {}.name(), "doc");
    assert_eq!(Doc {}.usage(), "Perform document operations against a bucket or collection");
    assert_eq!(KvUpsert::new().name(), "kv upsert");
    assert_eq!(UseCmd::new().name(), "use");
    assert_eq!(ScopesDrop::new().name(), "scopes drop");
    assert_eq!(ScopesDrop::new().usage(), "Deletes scopes through the HTTP API");
}

#[test]
fn use_cmd_reports_cluster_context_with_defaults() {
    let mut reg = Registry::new();
    reg.register(String::from("east"), record("couchbase://e", false)).unwrap();
    reg.set_active(&String::from("east")).unwrap();
    reg.set_active_scope(&String::from("east"), String::from("inventory")).unwrap();
    let report = UseCmd::new().run(&reg, false).unwrap();
    match report {
        UseReport::Cluster(c) => {
            assert_eq!(c.cluster, "east");
            assert_eq!(c.username, "admin");
            assert_eq!(c.bucket, "<not set>");
            assert_eq!(c.scope, "inventory");
            assert_eq!(c.collection, "");
            assert!(c.cloud_org.is_none());
        }
        UseReport::Cloud(_) => panic!("expected cluster context"),
    }
}

#[test]
fn use_cmd_without_active_cluster_fails() {
    let reg = Registry::new();
    let err = UseCmd::new().run(&reg, false).unwrap_err();
    assert_eq!(err, EngineError::NoActiveCluster);
}

#[test]
fn use_cmd_reports_cloud_context() {
    let mut reg = Registry::new();
    reg.set_active_cloud(Some(String::from("nimbus")));
    reg.set_active_cloud_org(Some(String::from("acme")));
    let report = UseCmd::new().run(&reg, true).unwrap();
    match report {
        UseReport::Cloud(c) => {
            assert_eq!(c.cloud, "nimbus");
            assert_eq!(c.organization, "acme");
            assert_eq!(c.project, "");
        }
        UseReport::Cluster(_) => panic!("expected cloud context"),
    }
}

#[test]
fn resolve_bucket_prefers_the_flag() {
    let cmd = KvUpsert::new();
    let mut rec = record("couchbase://e", false);
    rec.active_bucket = Some(String::from("default"));
    let chosen = cmd.resolve_bucket(Some(String::from("travel")), &rec).unwrap();
    assert_eq!(chosen, "travel");
    let fallback = cmd.resolve_bucket(None, &rec).unwrap();
    assert_eq!(fallback, "default");
    let none = record("couchbase://e", false);
    assert!(matches!(
        cmd.resolve_bucket(None, &none).unwrap_err(),
        CommandError::NoBucketSelected
    ));
}

#[test]
fn build_input_parses_document_content() {
    let cmd = KvUpsert::new();
    let docs = cmd
        .build_input(
            Some(String::from("airline_10")),
            Some(String::from("{\"name\": \"Sample Air\", \"mileage\": 120}")),
        )
        .unwrap();
    assert_eq!(docs.len(), 1);
    assert_eq!(docs[0].0, "airline_10");
    assert_eq!(docs[0].1["name"], "Sample Air");
    assert_eq!(docs[0].1["mileage"], 120);
}

#[test]
fn build_input_rejects_malformed_json() {
    let cmd = KvUpsert::new();
    let err = cmd
        .build_input(Some(String::from("id1")), Some(String::from("{not json")))
        .unwrap_err();
    assert!(matches!(err, CommandError::InvalidJson));
}

#[test]
fn build_input_without_both_arguments_is_empty() {
    let cmd = KvUpsert::new();
    assert!(cmd.build_input(Some(String::from("id1")), None).unwrap().is_empty());
    assert!(cmd.build_input(None, None).unwrap().is_empty());
}

#[test]
fn kv_upsert_tally_counts_results() {
    let cmd = KvUpsert::new();
    let results: Vec<Result<(), String>> = vec![
        Ok(()),
        Err(String::from("rejected")),
        Ok(()),
        Ok(()),
    ];
    let tally = cmd.tally(&results);
    assert_eq!(tally.processed, 4);
    assert_eq!(tally.succeeded, 3);
    assert_eq!(tally.failed, 1);
}

#[test]
fn scopes_drop_plans_one_request_per_target() {
    let mut reg = Registry::new();
    reg.register(String::from("prod-a"), record("couchbase://a", false)).unwrap();
    reg.register(String::from("prod-b"), record("couchbase://b", false)).unwrap();
    reg.set_active_bucket(&String::from("prod-a"), String::from("beer")).unwrap();
    reg.set_active_bucket(&String::from("prod-b"), String::from("travel")).unwrap();
    let explicit = vec![String::from("prod-*")];
    let plan = ScopesDrop::new()
        .plan(&reg, Some(&explicit), None, &String::from("inventory"))
        .unwrap();
    assert_eq!(plan.len(), 2);
    assert_eq!(plan[0].identifier, "prod-a");
    assert_eq!(plan[0].bucket, "beer");
    assert_eq!(plan[0].scope, "inventory");
    assert_eq!(plan[0].management_timeout_ms, 30000);
    assert_eq!(plan[1].identifier, "prod-b");
    assert_eq!(plan[1].bucket, "travel");
}

#[test]
fn scopes_drop_bucket_flag_overrides_defaults() {
    let mut reg = Registry::new();
    reg.register(String::from("a"), record("couchbase://a", false)).unwrap();
    reg.set_active(&String::from("a")).unwrap();
    let flag = String::from("override");
    let plan = ScopesDrop::new().plan(&reg, None, Some(&flag), &String::from("s")).unwrap();
    assert_eq!(plan.len(), 1);
    assert_eq!(plan[0].bucket, "override");
}

#[test]
fn scopes_drop_refuses_cloud_clusters() {
    let mut reg = Registry::new();
    reg.register(String::from("cloudy"), record("couchbase://c", true)).unwrap();
    reg.set_active(&String::from("cloudy")).unwrap();
    let err = ScopesDrop::new()
        .plan(&reg, None, Some(&String::from("b")), &String::from("s"))
        .unwrap_err();
    assert!(matches!(err, CommandError::CloudClusterUnsupported));
}

#[test]
fn scopes_drop_needs_some_bucket() {
    let mut reg = Registry::new();
    reg.register(String::from("a"), record("couchbase://a", false)).unwrap();
    reg.set_active(&String::from("a")).unwrap();
    let err = ScopesDrop::new().plan(&reg, None, None, &String::from("s")).unwrap_err();
    assert!(matches!(err, CommandError::NoBucketSelected));
}

#[test]
fn scopes_drop_surfaces_resolution_errors() {
    let reg = Registry::new();
    let explicit = vec![String::from("ghost")];
    let err = ScopesDrop::new()
        .plan(&reg, Some(&explicit), None, &String::from("s"))
        .unwrap_err();
    assert!(matches!(err, CommandError::Resolution(EngineError::NotFound)));
    let err2 = ScopesDrop::new().plan(&reg, None, None, &String::from("s")).unwrap_err();
    assert!(matches!(err2, CommandError::Resolution(EngineError::NoActiveCluster)));
}

#[test]
fn check_response_accepts_only_status_200() {
    let cmd = ScopesDrop::new();
    assert!(cmd.check_response(200, String::from("")).is_ok());
    let err = cmd.check_response(404, String::from("scope not found")).unwrap_err();
    assert!(matches!(err, CommandError::UnexpectedStatus(body) if body == "scope not found"));
}

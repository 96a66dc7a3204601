use cbshell::aggregator::{merge_outcomes, tally_outcomes, Tally};
use cbshell::executor::{execute, FailureReason, PerTargetOutcome};
use cbshell::registry::{ConnectionRecord, Registry, TimeoutPolicy};
use cbshell::resolver::resolve;
use cbshell::token::CancellationToken;

fn record(connstr: &str) -> ConnectionRecord {
    ConnectionRecord {
        connstr: String::from(connstr),
        username: String::from("admin"),
        password: String::from("SECRET-REDACTED"),
        active_bucket: Some(String::from("default")),
        active_scope: None,
        active_collection: None,
        cloud_org: None,
        timeouts: TimeoutPolicy { kv_ms: 2500, query_ms: 75000, management_ms: 75000, search_ms: 75000 },
        cloud_managed: false,
    }
}

fn snapshot_of(names: &[&str]) -> Vec<(String, ConnectionRecord)> {
    names.iter().map(|n| (String::from(*n), record(&format!("couchbase://{}", n)))).collect()
}

#[test]
fn mixed_fanout_tally_adds_up() {
    let snapshot = snapshot_of(&["c1", "c2", "c3", "c4", "c5"]);
    let token = CancellationToken::new();
    let outcomes = execute(
        &snapshot,
        |rec: ConnectionRecord| {
            if rec.connstr.ends_with("c2") || rec.connstr.ends_with("c4") {
                Err(FailureReason::OperationFailed(String::from("remote rejected")))
            } else {
                Ok(rec.connstr.len())
            }
        },
        &token,
    );
    assert_eq!(outcomes.len(), 5);
    let tally = tally_outcomes(&outcomes);
    assert_eq!(tally, Tally { processed: 5, succeeded: 3, failed: 2 });
    assert_eq!(tally.processed, tally.succeeded + tally.failed);
}

#[test]
fn triggered_token_cancels_every_target() {
    let snapshot = snapshot_of(&["c1", "c2", "c3"]);
    let mut token = CancellationToken::new();
    token.trigger();
    token.trigger();
    assert!(token.is_triggered());
    let outcomes = execute(&snapshot, |_rec: ConnectionRecord| Ok(0u64), &token);
    assert_eq!(outcomes.len(), 3);
    for (i, outcome) in outcomes.iter().enumerate() {
        assert!(matches!(
            outcome,
            PerTargetOutcome::Failure(FailureReason::Cancelled, origin)
                if origin == &snapshot[i].0
        ));
    }
}

#[test]
fn outcome_order_matches_target_order() {
    let snapshot = snapshot_of(&["z-late", "a-early", "m-middle"]);
    let token = CancellationToken::new();
    let outcomes = execute(
        &snapshot,
        |rec: ConnectionRecord| -> Result<String, FailureReason> { Ok(rec.connstr) },
        &token,
    );
    assert_eq!(outcomes.len(), 3);
    for (i, outcome) in outcomes.iter().enumerate() {
        match outcome {
            PerTargetOutcome::Success(connstr) => {
                assert_eq!(connstr, &snapshot[i].1.connstr);
            }
            PerTargetOutcome::Failure(_, _) => panic!("expected success"),
        }
    }
}

#[test]
fn failure_outcomes_carry_their_origin() {
    let snapshot = snapshot_of(&["c1", "c2"]);
    let token = CancellationToken::new();
    let outcomes = execute(
        &snapshot,
        |rec: ConnectionRecord| -> Result<(), FailureReason> {
            if rec.connstr.ends_with("c1") {
                Err(FailureReason::Timeout)
            } else {
                Ok(())
            }
        },
        &token,
    );
    assert!(matches!(
        &outcomes[0],
        PerTargetOutcome::Failure(FailureReason::Timeout, origin) if origin == "c1"
    ));
    assert!(matches!(&outcomes[1], PerTargetOutcome::Success(())));
}

#[test]
fn merge_tags_rows_and_keeps_failures() {
    let ids = vec![String::from("c1"), String::from("c2"), String::from("c3")];
    let outcomes: Vec<PerTargetOutcome<u64>> = vec![
        PerTargetOutcome::Success(10),
        PerTargetOutcome::Failure(FailureReason::Timeout, String::from("c2")),
        PerTargetOutcome::Success(30),
    ];
    let merged = merge_outcomes(&ids, outcomes);
    assert_eq!(merged.rows, vec![(String::from("c1"), 10), (String::from("c3"), 30)]);
    assert_eq!(merged.failures.len(), 1);
    assert!(matches!(
        &merged.failures[0],
        (FailureReason::Timeout, origin) if origin == "c2"
    ));
}

#[test]
fn prod_pattern_fanout_with_one_timeout() {
    let mut reg = Registry::new();
    reg.register(String::from("prod-a"), record("couchbase://10.0.0.1")).unwrap();
    reg.register(String::from("prod-b"), record("couchbase://10.0.0.2")).unwrap();
    reg.register(String::from("staging-1"), record("couchbase://10.0.1.1")).unwrap();
    reg.set_active(&String::from("prod-a")).unwrap();

    let explicit = vec![String::from("prod-*")];
    let targets = resolve(&reg, Some(&explicit), true).unwrap();
    assert_eq!(targets, vec![String::from("prod-a"), String::from("prod-b")]);

    let snapshot = reg.snapshot(&targets).unwrap();
    let token = CancellationToken::new();
    let outcomes = execute(
        &snapshot,
        |rec: ConnectionRecord| {
            if rec.connstr == "couchbase://10.0.0.1" {
                Ok(String::from("done"))
            } else {
                Err(FailureReason::Timeout)
            }
        },
        &token,
    );
    let tally = tally_outcomes(&outcomes);
    assert_eq!(tally, Tally { processed: 2, succeeded: 1, failed: 1 });
}

#[test]
fn snapshot_clones_records_for_targets() {
    let mut reg = Registry::new();
    reg.register(String::from("a"), record("couchbase://a")).unwrap();
    let targets = vec![String::from("a")];
    let snapshot = reg.snapshot(&targets).unwrap();
    assert_eq!(snapshot.len(), 1);
    assert_eq!(snapshot[0].0, "a");
    assert_eq!(snapshot[0].1.connstr, "couchbase://a");
    let missing = vec![String::from("b")];
    assert!(reg.snapshot(&missing).is_err());
}

use vstd::prelude::*;
use crate::executor::{FailureReason, PerTargetOutcome};

verus! {

/// How many of the outcomes are successes.
pub open spec fn count_successes<T>(s: Seq<PerTargetOutcome<T>>) -> int
    decreases s.len(),
{
    if s.len() == 0 {
        0
    } else {
        count_successes(s.drop_last()) + (if s.last().is_success() {
            1int
        } else {
            0int
        })
    }
}

/// The tally reducer's summary for a bulk command.
#[derive(Clone, Copy, Debug, PartialEq, Eq, Structural)]
pub struct Tally {
    pub processed: usize,
    pub succeeded: usize,
    pub failed: usize,
}

/// Reduces per-target outcomes to counts. It never fails itself: it produces
/// a tally even when every target failed, and `processed` always equals
/// `succeeded + failed` equals the number of outcomes.
pub fn tally_outcomes<T>(outcomes: &Vec<PerTargetOutcome<T>>) -> (t: Tally)
    ensures
        t.processed == outcomes@.len(),
        t.succeeded == count_successes(outcomes@),
        t.processed == t.succeeded + t.failed,
{
    let mut succeeded: usize = 0;
    let mut i: usize = 0;
    proof {
        assert(outcomes@.take(0) =~= Seq::<PerTargetOutcome<T>>::empty());
    }
    while i < outcomes.len()
        invariant
            i <= outcomes@.len(),
            succeeded == count_successes(outcomes@.take(i as int)),
            succeeded <= i,
        decreases outcomes@.len() - i,
    {
        proof {
            assert(outcomes@.take(i as int + 1).drop_last() =~= outcomes@.take(i as int));
            assert(outcomes@.take(i as int + 1).last() == outcomes@[i as int]);
        }
        match &outcomes[i] {
            PerTargetOutcome::Success(_) => {
                succeeded += 1;
            },
            PerTargetOutcome::Failure(_, _) => {},
        }
        i += 1;
    }
    proof {
        assert(outcomes@.take(outcomes@.len() as int) =~= outcomes@);
    }
    Tally { processed: outcomes.len(), succeeded, failed: outcomes.len() - succeeded }
}

/// The success rows a merge produces: each success payload tagged with its
/// originating identifier, in target order.
pub open spec fn merged_rows<T>(ids: Seq<String>, outcomes: Seq<PerTargetOutcome<T>>) -> Seq<
    (String, T),
>
    decreases outcomes.len(),
{
    if outcomes.len() == 0 {
        Seq::empty()
    } else {
        (match outcomes[0] {
            PerTargetOutcome::Success(t) => seq![(ids[0], t)],
            PerTargetOutcome::Failure(_, _) => Seq::empty(),
        }) + merged_rows(ids.skip(1), outcomes.skip(1))
    }
}

/// The failures a merge surfaces, in target order: none is silently dropped.
pub open spec fn merged_failures<T>(outcomes: Seq<PerTargetOutcome<T>>) -> Seq<
    (FailureReason, String),
>
    decreases outcomes.len(),
{
    if outcomes.len() == 0 {
        Seq::empty()
    } else {
        (match outcomes[0] {
            PerTargetOutcome::Success(_) => Seq::empty(),
            PerTargetOutcome::Failure(reason, origin) => seq![(reason, origin)],
        }) + merged_failures(outcomes.skip(1))
    }
}

/// The merge reducer's result for a read-style command: the flattened
/// success payloads, each tagged with its originating cluster, beside every
/// per-target failure. A command must never report success while hiding a
/// target that failed.
pub struct MergedResult<T> {
    pub rows: Vec<(String, T)>,
    pub failures: Vec<(FailureReason, String)>,
}

/// Flattens the outcomes of a fan-out, pairing each with its target
/// identifier by position.
pub fn merge_outcomes<T>(ids: &Vec<String>, outcomes: Vec<PerTargetOutcome<T>>) -> (m:
    MergedResult<T>)
    requires
        ids@.len() == outcomes@.len(),
    ensures
        m.rows@ == merged_rows(ids@, outcomes@),
        m.failures@ == merged_failures(outcomes@),
{
    let ghost ids0 = ids@;
    let ghost outs0 = outcomes@;
    let mut rest = outcomes;
    let mut rows: Vec<(String, T)> = Vec::new();
    let mut failures: Vec<(FailureReason, String)> = Vec::new();
    let total = ids.len();
    let mut i: usize = 0;
    proof {
        assert(ids0.skip(0) =~= ids0);
        assert(outs0.skip(0) =~= outs0);
    }
    while rest.len() > 0
        invariant
            ids0 == ids@,
            total == ids0.len(),
            i <= total,
            ids0.len() == outs0.len(),
            rest@ == outs0.skip(i as int),
            merged_rows(ids0, outs0) == rows@ + merged_rows(ids0.skip(i as int), rest@),
            merged_failures(outs0) == failures@ + merged_failures(rest@),
        decreases rest@.len(),
    {
        proof {
            assert(outs0.skip(i as int)[0] == outs0[i as int]);
            assert(ids0.skip(i as int)[0] == ids0[i as int]);
            assert(ids0.skip(i as int).skip(1) =~= ids0.skip(i as int + 1));
            assert(outs0.skip(i as int).skip(1) =~= outs0.skip(i as int + 1));
        }
        let outcome = rest.remove(0);
        proof {
            assert(rest@ =~= outs0.skip(i as int + 1));
            assert(outcome == outs0[i as int]);
        }
        match outcome {
            PerTargetOutcome::Success(t) => {
                let ghost gt = t;
                let ghost oldrows = rows@;
                rows.push((ids[i].clone(), t));
                proof {
                    assert(outs0.skip(i as int)[0] == PerTargetOutcome::Success(gt));
                    assert(merged_rows(ids0.skip(i as int), outs0.skip(i as int)) == seq![
                        (ids0[i as int], gt),
                    ] + merged_rows(ids0.skip(i as int + 1), outs0.skip(i as int + 1)));
                    assert(rows@ =~= oldrows.push((ids0[i as int], gt)));
                    assert(merged_rows(ids0, outs0) =~= rows@ + merged_rows(
                        ids0.skip(i as int + 1),
                        outs0.skip(i as int + 1),
                    ));
                    assert(merged_failures(outs0.skip(i as int)) == merged_failures(
                        outs0.skip(i as int + 1),
                    ));
                }
            },
            PerTargetOutcome::Failure(reason, origin) => {
                let ghost gr = reason;
                let ghost go = origin;
                let ghost oldf = failures@;
                failures.push((reason, origin));
                proof {
                    assert(outs0.skip(i as int)[0] == PerTargetOutcome::Failure::<T>(gr, go));
                    assert(merged_failures(outs0.skip(i as int)) == seq![(gr, go)]
                        + merged_failures(outs0.skip(i as int + 1)));
                    assert(failures@ =~= oldf.push((gr, go)));
                    assert(merged_failures(outs0) =~= failures@ + merged_failures(
                        outs0.skip(i as int + 1),
                    ));
                    assert(merged_rows(ids0.skip(i as int), outs0.skip(i as int))
                        == merged_rows(ids0.skip(i as int + 1), outs0.skip(i as int + 1)));
                }
            },
        }
        i += 1;
    }
    proof {
        assert(ids0.skip(i as int) =~= ids0.skip(ids0.len() as int));
        assert(merged_rows(ids0.skip(i as int), rest@) =~= Seq::<(String, T)>::empty());
        assert(merged_failures(rest@) =~= Seq::<(FailureReason, String)>::empty());
        assert(rows@ + Seq::<(String, T)>::empty() =~= rows@);
        assert(failures@ + Seq::<(FailureReason, String)>::empty() =~= failures@);
    }
    MergedResult { rows, failures }
}

} // verus!

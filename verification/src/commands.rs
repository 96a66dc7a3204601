use vstd::prelude::*;
use crate::EngineError;
use crate::json::json_ok;
use crate::registry::{ConnectionRecord, Registry};

verus! {

/// A command-level error, surfaced to the user before any network activity.
#[derive(Debug)]
pub enum CommandError {
    /// Target resolution or a registry lookup failed.
    Resolution(EngineError),
    /// No bucket was given and the target cluster has no default bucket.
    NoBucketSelected,
    /// The document content does not parse as JSON.
    InvalidJson,
    /// The operation is not legal against a cloud-managed cluster.
    CloudClusterUnsupported,
    /// A management call answered with an unexpected status; the payload is
    /// the response body.
    UnexpectedStatus(String),
}

/// One row of the `clusters` listing.
#[derive(Debug)]
pub struct ClusterRow {
    pub active: bool,
    pub identifier: String,
    pub connstr: String,
    pub username: String,
}

/// The `clusters` command: lists all managed clusters.
pub struct Clusters {}

impl Clusters {
    pub fn new() -> (c: Clusters) {
        Clusters {}
    }

    pub fn name(&self) -> (r: &'static str)
        ensures
            r@ == "clusters"@,
    {
        "clusters"
    }

    pub fn usage(&self) -> (r: &'static str)
        ensures
            r@ == "Lists all managed clusters"@,
    {
        "Lists all managed clusters"
    }

    /// One row per registered cluster, in insertion order, flagging the
    /// active one.
    pub fn run(&self, registry: &Registry) -> (rows: Vec<ClusterRow>)
        requires
            registry.wf(),
        ensures
            rows@.len() == registry.entries().len(),
            forall|i: int|
                0 <= i < rows@.len() ==> {
                    let row = #[trigger] rows@[i];
                    &&& row.identifier@ == registry.ids()[i]
                    &&& row.connstr == registry.entries()[i].1.connstr
                    &&& row.username == registry.entries()[i].1.username
                    &&& row.active == (registry.active_id() == Some(registry.ids()[i]))
                },
    {
        let active = registry.active();
        let list = registry.list();
        let mut rows: Vec<ClusterRow> = Vec::new();
        let mut i: usize = 0;
        while i < list.len()
            invariant
                registry.wf(),
                list@ == registry.entries(),
                (match active {
                    Some(ref a) => registry.active_id() == Some(a@),
                    None => registry.active_id() is None,
                }),
                i <= list@.len(),
                rows@.len() == i,
                forall|j: int|
                    0 <= j < i ==> {
                        let row = #[trigger] rows@[j];
                        &&& row.identifier@ == registry.ids()[j]
                        &&& row.connstr == registry.entries()[j].1.connstr
                        &&& row.username == registry.entries()[j].1.username
                        &&& row.active == (registry.active_id() == Some(registry.ids()[j]))
                    },
            decreases list@.len() - i,
        {
            let entry = &list[i];
            let is_active = match &active {
                Some(a) => a.eq(&entry.0),
                None => false,
            };
            rows.push(
                ClusterRow {
                    active: is_active,
                    identifier: entry.0.clone(),
                    connstr: entry.1.connstr.clone(),
                    username: entry.1.username.clone(),
                },
            );
            i += 1;
        }
        rows
    }
}

/// The `doc` command group: document operations against a bucket or
/// collection live under it; on its own it only describes itself.
pub struct Doc {}

impl Doc {
    pub fn name(&self) -> (r: &'static str)
        ensures
            r@ == "doc"@,
    {
        "doc"
    }

    pub fn usage(&self) -> (r: &'static str)
        ensures
            r@ == "Perform document operations against a bucket or collection"@,
    {
        "Perform document operations against a bucket or collection"
    }
}

/// What `use` reports when no cloud context is asked for.
#[derive(Debug)]
pub struct ClusterContext {
    pub username: String,
    pub cluster: String,
    pub bucket: String,
    pub scope: String,
    pub collection: String,
    pub cloud_org: Option<String>,
}

/// What `use` reports in cloud mode.
#[derive(Debug)]
pub struct CloudContext {
    pub organization: String,
    pub cloud: String,
    pub project: String,
}

#[derive(Debug)]
pub enum UseReport {
    Cluster(ClusterContext),
    Cloud(CloudContext),
}

/// The `use` command: shows the default execution environment of commands.
pub struct UseCmd {}

impl UseCmd {
    pub fn new() -> (c: UseCmd) {
        UseCmd {}
    }

    pub fn name(&self) -> (r: &'static str)
        ensures
            r@ == "use"@,
    {
        "use"
    }

    pub fn usage(&self) -> (r: &'static str)
        ensures
            r@ == "Modify the default execution environment of commands"@,
    {
        "Modify the default execution environment of commands"
    }

    /// Reports the active selections: in cloud mode the cloud organization,
    /// cloud and project (empty strings when unset); otherwise the active
    /// cluster's identity and default bucket/scope/collection, with
    /// `<not set>` standing for a missing bucket.
    pub fn run(&self, registry: &Registry, show_cloud: bool) -> (r: Result<
        UseReport,
        EngineError,
    >)
        requires
            registry.wf(),
        ensures
            show_cloud ==> (r matches Ok(UseReport::Cloud(c)) && {
                &&& c.organization@ == (match registry.active_cloud_org_id() {
                    Some(s) => s,
                    None => Seq::<char>::empty(),
                })
                &&& c.cloud@ == (match registry.active_cloud_id() {
                    Some(s) => s,
                    None => Seq::<char>::empty(),
                })
                &&& c.project@ == (match registry.active_project_id() {
                    Some(s) => s,
                    None => Seq::<char>::empty(),
                })
            }),
            !show_cloud && registry.active_id() is None ==> r == Err::<UseReport, EngineError>(
                EngineError::NoActiveCluster,
            ),
            !show_cloud ==> (registry.active_id() matches Some(a) ==> (r matches Ok(
                UseReport::Cluster(c),
            ) && {
                let rec = registry.record_of(a);
                &&& c.cluster@ == a
                &&& c.username == rec.username
                &&& (match rec.active_bucket {
                    Some(b) => c.bucket == b,
                    None => c.bucket@ == "<not set>"@,
                })
                &&& (match rec.active_scope {
                    Some(s) => c.scope == s,
                    None => c.scope@ == Seq::<char>::empty(),
                })
                &&& (match rec.active_collection {
                    Some(s) => c.collection == s,
                    None => c.collection@ == Seq::<char>::empty(),
                })
                &&& c.cloud_org == rec.cloud_org
            })),
    {
        if show_cloud {
            let organization = match registry.active_cloud_org_name() {
                Some(s) => s,
                None => String::new(),
            };
            let cloud = match registry.active_cloud_name() {
                Some(s) => s,
                None => String::new(),
            };
            let project = match registry.active_project_name() {
                Some(s) => s,
                None => String::new(),
            };
            Ok(UseReport::Cloud(CloudContext { organization, cloud, project }))
        } else {
            let a = match registry.active() {
                Some(a) => a,
                None => {
                    return Err(EngineError::NoActiveCluster);
                },
            };
            let rec = match registry.get(&a) {
                Ok(rec) => rec,
                Err(_) => {
                    proof {
                        assert(false);
                    }
                    return vstd::pervasive::unreached();
                },
            };
            let bucket = match &rec.active_bucket {
                Some(b) => b.clone(),
                None => "<not set>".to_owned(),
            };
            let scope = match &rec.active_scope {
                Some(s) => s.clone(),
                None => String::new(),
            };
            let collection = match &rec.active_collection {
                Some(s) => s.clone(),
                None => String::new(),
            };
            let cloud_org = match &rec.cloud_org {
                Some(s) => Some(s.clone()),
                None => None,
            };
            Ok(
                UseReport::Cluster(
                    ClusterContext {
                        username: rec.username.clone(),
                        cluster: a,
                        bucket,
                        scope,
                        collection,
                        cloud_org,
                    },
                ),
            )
        }
    }
}

/// How many of the per-document results are successes.
pub open spec fn count_oks<T, E>(s: Seq<Result<T, E>>) -> int
    decreases s.len(),
{
    if s.len() == 0 {
        0
    } else {
        count_oks(s.drop_last()) + (if s.last() is Ok {
            1int
        } else {
            0int
        })
    }
}

/// The `kv upsert` command: upserts documents through key/value, counting
/// what was processed.
pub struct KvUpsert {}

impl KvUpsert {
    pub fn new() -> (c: KvUpsert) {
        KvUpsert {}
    }

    pub fn name(&self) -> (r: &'static str)
        ensures
            r@ == "kv upsert"@,
    {
        "kv upsert"
    }

    pub fn usage(&self) -> (r: &'static str)
        ensures
            r@ == "Upsert a document through Key/Value"@,
    {
        "Upsert a document through Key/Value"
    }

    /// Chooses the bucket to upsert into: the explicit flag wins, else the
    /// target cluster's default bucket; neither is a command error.
    pub fn resolve_bucket(&self, explicit: Option<String>, record: &ConnectionRecord) -> (r:
        Result<String, CommandError>)
        ensures
            explicit matches Some(b) ==> r == Ok::<String, CommandError>(b),
            explicit is None ==> (record.active_bucket matches Some(b) ==> (r matches Ok(rb)
                && rb == b)),
            explicit is None && record.active_bucket is None ==> r == Err::<
                String,
                CommandError,
            >(CommandError::NoBucketSelected),
    {
        match explicit {
            Some(b) => Ok(b),
            None => match &record.active_bucket {
                Some(b) => Ok(b.clone()),
                None => Err(CommandError::NoBucketSelected),
            },
        }
    }

    /// Builds the document list from the positional arguments: an id and a
    /// content string form one document whose content must parse as JSON;
    /// anything less means the input stream supplies the documents.
    pub fn build_input(&self, id: Option<String>, content: Option<String>) -> (r: Result<
        Vec<(String, serde_json::Value)>,
        CommandError,
    >)
        ensures
            id matches Some(i) ==> (content matches Some(c) ==> (json_ok(c@) ==> (r matches Ok(
                v,
            ) && v@.len() == 1 && v@[0].0 == i))),
            id is Some ==> (content matches Some(c) ==> (!json_ok(c@) ==> r == Err::<
                Vec<(String, serde_json::Value)>,
                CommandError,
            >(CommandError::InvalidJson))),
            id is None || content is None ==> (r matches Ok(v) && v@.len() == 0),
    {
        match (id, content) {
            (Some(i), Some(c)) => {
                let value = match crate::json::parse_value(c.as_str()) {
                    Ok(v) => v,
                    Err(_) => {
                        return Err(CommandError::InvalidJson);
                    },
                };
                let mut out: Vec<(String, serde_json::Value)> = Vec::new();
                out.push((i, value));
                Ok(out)
            },
            _ => Ok(Vec::new()),
        }
    }

    /// Reduces the per-document upsert results to the reported counts:
    /// processed is always succeeded plus failed.
    pub fn tally<T, E>(&self, results: &Vec<Result<T, E>>) -> (t: crate::aggregator::Tally)
        ensures
            t.processed == results@.len(),
            t.succeeded == count_oks(results@),
            t.processed == t.succeeded + t.failed,
    {
        let mut succeeded: usize = 0;
        let mut i: usize = 0;
        proof {
            assert(results@.take(0) =~= Seq::<Result<T, E>>::empty());
        }
        while i < results.len()
            invariant
                i <= results@.len(),
                succeeded == count_oks(results@.take(i as int)),
                succeeded <= i,
            decreases results@.len() - i,
        {
            proof {
                assert(results@.take(i as int + 1).drop_last() =~= results@.take(i as int));
                assert(results@.take(i as int + 1).last() == results@[i as int]);
            }
            if results[i].is_ok() {
                succeeded += 1;
            }
            i += 1;
        }
        proof {
            assert(results@.take(results@.len() as int) =~= results@);
        }
        crate::aggregator::Tally {
            processed: results.len(),
            succeeded,
            failed: results.len() - succeeded,
        }
    }
}

/// One planned management request for dropping a scope on one cluster.
#[derive(Debug)]
pub struct DropScopeRequest {
    pub identifier: String,
    pub bucket: String,
    pub scope: String,
    pub management_timeout_ms: u64,
}

/// The bucket flag as the model sees it.
pub open spec fn flag_view(flag: Option<&String>) -> Option<Seq<char>> {
    match flag {
        Some(s) => Some(s@),
        None => None,
    }
}

/// The (identifier, bucket) pairs of the planned requests.
pub open spec fn request_pairs(reqs: Seq<DropScopeRequest>) -> Seq<(Seq<char>, Seq<char>)> {
    Seq::new(reqs.len(), |j: int| (reqs[j].identifier@, reqs[j].bucket@))
}

/// Which bucket each resolved target uses, in target order, or the first
/// command error: a cloud-managed target, or a target with no bucket to use.
pub open spec fn drop_scope_pairs(
    reg: Registry,
    targets: Seq<Seq<char>>,
    bucket_flag: Option<Seq<char>>,
) -> Result<Seq<(Seq<char>, Seq<char>)>, CommandError>
    decreases targets.len(),
{
    if targets.len() == 0 {
        Ok(Seq::empty())
    } else {
        let rec = reg.record_of(targets[0]);
        if rec.cloud_managed {
            Err(CommandError::CloudClusterUnsupported)
        } else {
            let b = match bucket_flag {
                Some(bf) => Some(bf),
                None => match rec.active_bucket {
                    Some(s) => Some(s@),
                    None => None,
                },
            };
            match b {
                None => Err(CommandError::NoBucketSelected),
                Some(bb) => match drop_scope_pairs(reg, targets.skip(1), bucket_flag) {
                    Ok(rest) => Ok(seq![(targets[0], bb)] + rest),
                    Err(e) => Err(e),
                },
            }
        }
    }
}

/// The `scopes drop` command: deletes a scope through the management API on
/// every resolved target cluster.
pub struct ScopesDrop {}

impl ScopesDrop {
    pub fn new() -> (c: ScopesDrop) {
        ScopesDrop {}
    }

    pub fn name(&self) -> (r: &'static str)
        ensures
            r@ == "scopes drop"@,
    {
        "scopes drop"
    }

    pub fn usage(&self) -> (r: &'static str)
        ensures
            r@ == "Deletes scopes through the HTTP API"@,
    {
        "Deletes scopes through the HTTP API"
    }

    /// Plans the per-cluster requests: resolves the explicit cluster list or
    /// the active cluster, refuses cloud-managed targets, and picks each
    /// target's bucket from the flag or its default. Nothing is sent unless
    /// every target planned.
    pub fn plan(
        &self,
        registry: &Registry,
        explicit_clusters: Option<&Vec<String>>,
        bucket_flag: Option<&String>,
        scope: &String,
    ) -> (r: Result<Vec<DropScopeRequest>, CommandError>)
        requires
            registry.wf(),
        ensures
            (match crate::resolver::spec_resolve(
                registry.ids(),
                registry.active_id(),
                crate::resolver::explicit_view(explicit_clusters),
                true,
            ) {
                Err(e) => r == Err::<Vec<DropScopeRequest>, CommandError>(
                    CommandError::Resolution(e),
                ),
                Ok(targets) => (match drop_scope_pairs(
                    *registry,
                    targets,
                    flag_view(bucket_flag),
                ) {
                    Err(ce) => r == Err::<Vec<DropScopeRequest>, CommandError>(ce),
                    Ok(pairs) => r matches Ok(v) && v@.len() == pairs.len() && (forall|i: int|
                        0 <= i < pairs.len() ==> {
                            let req = #[trigger] v@[i];
                            &&& req.identifier@ == pairs[i].0
                            &&& req.bucket@ == pairs[i].1
                            &&& req.scope == *scope
                            &&& req.management_timeout_ms == registry.record_of(
                                pairs[i].0,
                            ).timeouts.management_ms
                        }),
                }),
            }),
    {
        let targets = match crate::resolver::resolve(registry, explicit_clusters, true) {
            Ok(t) => t,
            Err(e) => {
                return Err(CommandError::Resolution(e));
            },
        };
        let ghost tv = targets.deep_view();
        let ghost fv = flag_view(bucket_flag);
        let mut out: Vec<DropScopeRequest> = Vec::new();
        let mut i: usize = 0;
        proof {
            assert(tv.skip(0) =~= tv);
            assert(request_pairs(out@) =~= Seq::<(Seq<char>, Seq<char>)>::empty());
        }
        while i < targets.len()
            invariant
                registry.wf(),
                tv == targets.deep_view(),
                fv == flag_view(bucket_flag),
                crate::resolver::spec_resolve(
                    registry.ids(),
                    registry.active_id(),
                    crate::resolver::explicit_view(explicit_clusters),
                    true,
                ) == Ok::<Seq<Seq<char>>, EngineError>(tv),
                i <= tv.len(),
                out@.len() == i,
                forall|j: int| 0 <= j < tv.len() ==> registry.contains_id(#[trigger] tv[j]),
                (match drop_scope_pairs(*registry, tv.skip(i as int), fv) {
                    Ok(rest) => drop_scope_pairs(*registry, tv, fv) matches Ok(all) && all
                        == request_pairs(out@) + rest,
                    Err(e) => drop_scope_pairs(*registry, tv, fv) == Err::<
                        Seq<(Seq<char>, Seq<char>)>,
                        CommandError,
                    >(e),
                }),
                forall|j: int|
                    0 <= j < i ==> (#[trigger] out@[j]).scope == *scope
                        && out@[j].management_timeout_ms == registry.record_of(
                        out@[j].identifier@,
                    ).timeouts.management_ms,
            decreases tv.len() - i,
        {
            let t = &targets[i];
            proof {
                assert(tv.skip(i as int)[0] == tv[i as int]);
                assert(tv[i as int] == t@);
                assert(tv.skip(i as int).skip(1) =~= tv.skip(i as int + 1));
            }
            let rec = match registry.get(t) {
                Ok(rec) => rec,
                Err(_) => {
                    proof {
                        assert(false);
                    }
                    return vstd::pervasive::unreached();
                },
            };
            if rec.cloud_managed {
                return Err(CommandError::CloudClusterUnsupported);
            }
            let bucket = match bucket_flag {
                Some(bf) => bf.clone(),
                None => match &rec.active_bucket {
                    Some(s) => s.clone(),
                    None => {
                        return Err(CommandError::NoBucketSelected);
                    },
                },
            };
            let ghost bv = bucket@;
            let ghost oldpairs = request_pairs(out@);
            out.push(
                DropScopeRequest {
                    identifier: t.clone(),
                    bucket,
                    scope: scope.clone(),
                    management_timeout_ms: rec.timeouts.management_ms,
                },
            );
            proof {
                assert(request_pairs(out@) =~= oldpairs.push((tv[i as int], bv)));
                let rest1 = drop_scope_pairs(*registry, tv.skip(i as int + 1), fv);
                if rest1 is Ok {
                    assert(oldpairs + (seq![(tv[i as int], bv)] + rest1->Ok_0)
                        =~= request_pairs(out@) + rest1->Ok_0);
                }
            }
            i += 1;
        }
        proof {
            assert(tv.skip(i as int) =~= Seq::<Seq<char>>::empty());
            assert(request_pairs(out@) + Seq::<(Seq<char>, Seq<char>)>::empty() =~= request_pairs(
                out@,
            ));
        }
        Ok(out)
    }

    /// Decides whether one management response is the success a drop
    /// expects: anything but status 200 surfaces the response body.
    pub fn check_response(&self, status: u16, content: String) -> (r: Result<(), CommandError>)
        ensures
            status == 200 ==> r is Ok,
            status != 200 ==> r == Err::<(), CommandError>(CommandError::UnexpectedStatus(content)),
    {
        if status == 200 {
            Ok(())
        } else {
            Err(CommandError::UnexpectedStatus(content))
        }
    }
}

} // verus!

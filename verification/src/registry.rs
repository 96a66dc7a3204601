use vstd::prelude::*;
use crate::EngineError;

verus! {

/// Per-operation deadlines, in milliseconds, configured per cluster.
#[derive(Clone, Copy, Debug, PartialEq, Eq, Structural)]
pub struct TimeoutPolicy {
    pub kv_ms: u64,
    pub query_ms: u64,
    pub management_ms: u64,
    pub search_ms: u64,
}

/// One configured remote cluster: how to reach it, its credentials, the
/// default bucket/scope/collection selections, and its cloud association.
#[derive(Debug)]
pub struct ConnectionRecord {
    pub connstr: String,
    pub username: String,
    pub password: String,
    pub active_bucket: Option<String>,
    pub active_scope: Option<String>,
    pub active_collection: Option<String>,
    pub cloud_org: Option<String>,
    pub timeouts: TimeoutPolicy,
    pub cloud_managed: bool,
}

fn clone_opt_string(o: &Option<String>) -> (r: Option<String>)
    ensures
        r == *o,
{
    match o {
        Some(s) => Some(s.clone()),
        None => None,
    }
}

impl Clone for ConnectionRecord {
    /// A snapshot of a record is indistinguishable from the original.
    fn clone(&self) -> (res: Self)
        ensures
            res == *self,
    {
        ConnectionRecord {
            connstr: self.connstr.clone(),
            username: self.username.clone(),
            password: self.password.clone(),
            active_bucket: clone_opt_string(&self.active_bucket),
            active_scope: clone_opt_string(&self.active_scope),
            active_collection: clone_opt_string(&self.active_collection),
            cloud_org: clone_opt_string(&self.cloud_org),
            timeouts: self.timeouts,
            cloud_managed: self.cloud_managed,
        }
    }
}

/// The process-lifetime registry: a mapping from cluster identifier to its
/// connection record in stable insertion order, plus the active selections
/// used when a command names no explicit target.
pub struct Registry {
    items: Vec<(String, ConnectionRecord)>,
    active: Option<String>,
    active_cloud: Option<String>,
    active_cloud_org: Option<String>,
    active_project: Option<String>,
}

impl Registry {
    /// The registered (identifier, record) pairs, in insertion order.
    pub closed spec fn entries(&self) -> Seq<(String, ConnectionRecord)> {
        self.items@
    }

    /// The registered identifiers, in insertion order.
    pub open spec fn ids(&self) -> Seq<Seq<char>> {
        Seq::new(self.entries().len(), |i: int| self.entries()[i].0@)
    }

    /// The identifier of the active cluster, if one is active.
    pub closed spec fn active_id(&self) -> Option<Seq<char>> {
        match self.active {
            Some(ref a) => Some(a@),
            None => None,
        }
    }

    pub closed spec fn active_cloud_id(&self) -> Option<Seq<char>> {
        match self.active_cloud {
            Some(ref a) => Some(a@),
            None => None,
        }
    }

    pub closed spec fn active_cloud_org_id(&self) -> Option<Seq<char>> {
        match self.active_cloud_org {
            Some(ref a) => Some(a@),
            None => None,
        }
    }

    pub closed spec fn active_project_id(&self) -> Option<Seq<char>> {
        match self.active_project {
            Some(ref a) => Some(a@),
            None => None,
        }
    }

    pub open spec fn contains_id(&self, id: Seq<char>) -> bool {
        exists|i: int| 0 <= i < self.ids().len() && self.ids()[i] == id
    }

    /// The position of a registered identifier; meaningful only under `wf`
    /// together with `contains_id`.
    pub open spec fn index_of(&self, id: Seq<char>) -> int {
        choose|i: int| 0 <= i < self.ids().len() && self.ids()[i] == id
    }

    /// The record registered under an identifier; meaningful only under `wf`
    /// together with `contains_id`.
    pub open spec fn record_of(&self, id: Seq<char>) -> ConnectionRecord {
        self.entries()[self.index_of(id)].1
    }

    /// Registry invariant: identifiers are unique, and the active identifier,
    /// if set, is registered.
    pub open spec fn wf(&self) -> bool {
        &&& (forall|i: int, j: int|
            0 <= i < j < self.ids().len() ==> self.ids()[i] != self.ids()[j])
        &&& (match self.active_id() {
            Some(a) => self.contains_id(a),
            None => true,
        })
    }

    pub fn new() -> (r: Registry)
        ensures
            r.wf(),
            r.entries() =~= Seq::<(String, ConnectionRecord)>::empty(),
            r.active_id() is None,
            r.active_cloud_id() is None,
            r.active_cloud_org_id() is None,
            r.active_project_id() is None,
    {
        Registry {
            items: Vec::new(),
            active: None,
            active_cloud: None,
            active_cloud_org: None,
            active_project: None,
        }
    }

    /// Linear scan for an identifier; the registry is small (one entry per
    /// configured cluster).
    fn find(&self, id: &String) -> (r: Option<usize>)
        ensures
            match r {
                Some(i) => i < self.ids().len() && self.ids()[i as int] == id@,
                None => !self.contains_id(id@),
            },
    {
        let mut i: usize = 0;
        while i < self.items.len()
            invariant
                i <= self.items.len(),
                forall|j: int| 0 <= j < i ==> self.ids()[j] != id@,
            decreases self.items.len() - i,
        {
            if self.items[i].0.eq(id) {
                return Some(i);
            }
            i += 1;
        }
        None
    }

    /// Adds a new cluster; fails without mutation if the identifier is taken.
    pub fn register(&mut self, id: String, record: ConnectionRecord) -> (r: Result<
        (),
        EngineError,
    >)
        requires
            old(self).wf(),
        ensures
            final(self).wf(),
            r is Ok <==> !old(self).contains_id(id@),
            r is Err ==> *final(self) == *old(self) && r == Err::<(), EngineError>(
                EngineError::DuplicateIdentifier,
            ),
            r is Ok ==> final(self).entries() == old(self).entries().push((id, record)),
            r is Ok ==> final(self).active_id() == old(self).active_id(),
            final(self).active_cloud_id() == old(self).active_cloud_id(),
            final(self).active_cloud_org_id() == old(self).active_cloud_org_id(),
            final(self).active_project_id() == old(self).active_project_id(),
    {
        if self.find(&id).is_some() {
            return Err(EngineError::DuplicateIdentifier);
        }
        self.items.push((id, record));
        proof {
            assert forall|i: int, j: int|
                0 <= i < j < self.ids().len() implies self.ids()[i] != self.ids()[j] by {
                if j < old(self).ids().len() {
                    assert(old(self).ids()[i] == self.ids()[i]);
                    assert(old(self).ids()[j] == self.ids()[j]);
                } else {
                    assert(old(self).ids()[i] == self.ids()[i]);
                }
            }
            assert(final(self).active_id() == old(self).active_id());
            if old(self).active_id() is Some {
                let a = old(self).active_id()->0;
                let w = choose|i: int|
                    0 <= i < old(self).ids().len() && old(self).ids()[i] == a;
                assert(self.ids()[w] == a);
            }
        }
        Ok(())
    }

    /// Removes a cluster; if it was active, the registry is left with no
    /// active cluster. Fails without mutation if the identifier is unknown.
    pub fn unregister(&mut self, id: &String) -> (r: Result<(), EngineError>)
        requires
            old(self).wf(),
        ensures
            final(self).wf(),
            r is Ok <==> old(self).contains_id(id@),
            r is Err ==> *final(self) == *old(self) && r == Err::<(), EngineError>(
                EngineError::NotFound,
            ),
            r is Ok ==> final(self).entries() == old(self).entries().remove(
                old(self).index_of(id@),
            ),
            r is Ok && old(self).active_id() == Some(id@) ==> final(self).active_id() is None,
            r is Ok && old(self).active_id() != Some(id@) ==> final(self).active_id() == old(
                self,
            ).active_id(),
            final(self).active_cloud_id() == old(self).active_cloud_id(),
            final(self).active_cloud_org_id() == old(self).active_cloud_org_id(),
            final(self).active_project_id() == old(self).active_project_id(),
    {
        let found = self.find(id);
        let i = match found {
            Some(i) => i,
            None => {
                return Err(EngineError::NotFound);
            },
        };
        proof {
            let w = old(self).index_of(id@);
            assert(old(self).ids()[i as int] == id@);
            assert(0 <= w < old(self).ids().len() && old(self).ids()[w] == id@);
            assert(w == i);
        }
        let was_active = match &self.active {
            Some(a) => a.eq(id),
            None => false,
        };
        self.items.remove(i);
        if was_active {
            self.active = None;
        }
        proof {
            let oldids = old(self).ids();
            assert(self.ids() =~= oldids.remove(i as int));
            assert forall|p: int, q: int|
                0 <= p < q < self.ids().len() implies self.ids()[p] != self.ids()[q] by {
                let p0: int = if p < i { p } else { p + 1 };
                let q0: int = if q < i { q } else { q + 1 };
                assert(self.ids()[p] == oldids[p0]);
                assert(self.ids()[q] == oldids[q0]);
            }
            if self.active_id() is Some {
                let a = self.active_id()->0;
                assert(old(self).active_id() == Some(a));
                assert(a != id@);
                let w = choose|k: int| 0 <= k < oldids.len() && oldids[k] == a;
                if w < i {
                    assert(self.ids()[w] == a);
                } else {
                    assert(w != i);
                    assert(self.ids()[w - 1] == a);
                }
            }
        }
        Ok(())
    }

    /// Looks a record up by identifier.
    pub fn get(&self, id: &String) -> (r: Result<&ConnectionRecord, EngineError>)
        requires
            self.wf(),
        ensures
            r is Ok <==> self.contains_id(id@),
            r matches Ok(rec) ==> *rec == self.record_of(id@),
            r is Err ==> r == Err::<&ConnectionRecord, EngineError>(EngineError::NotFound),
    {
        match self.find(id) {
            Some(i) => {
                proof {
                    let w = self.index_of(id@);
                    assert(0 <= w < self.ids().len() && self.ids()[w] == id@);
                    assert(w == i);
                }
                Ok(&self.items[i].1)
            },
            None => Err(EngineError::NotFound),
        }
    }

    /// Makes a registered cluster the active one.
    pub fn set_active(&mut self, id: &String) -> (r: Result<(), EngineError>)
        requires
            old(self).wf(),
        ensures
            final(self).wf(),
            r is Ok <==> old(self).contains_id(id@),
            r is Err ==> *final(self) == *old(self) && r == Err::<(), EngineError>(
                EngineError::NotFound,
            ),
            r is Ok ==> final(self).active_id() == Some(id@),
            final(self).entries() == old(self).entries(),
            final(self).active_cloud_id() == old(self).active_cloud_id(),
            final(self).active_cloud_org_id() == old(self).active_cloud_org_id(),
            final(self).active_project_id() == old(self).active_project_id(),
    {
        if self.find(id).is_none() {
            return Err(EngineError::NotFound);
        }
        self.active = Some(id.clone());
        Ok(())
    }

    /// The identifier of the active cluster, cloned, if one is active.
    pub fn active(&self) -> (r: Option<String>)
        ensures
            match r {
                Some(s) => self.active_id() == Some(s@),
                None => self.active_id() is None,
            },
    {
        clone_opt_string(&self.active)
    }

    /// The registered clusters in stable insertion order.
    pub fn list(&self) -> (r: &Vec<(String, ConnectionRecord)>)
        ensures
            r@ == self.entries(),
    {
        &self.items
    }

    pub fn len(&self) -> (r: usize)
        ensures
            r == self.entries().len(),
    {
        self.items.len()
    }

    /// Sets the named record's default bucket; the choice is optimistic, with
    /// no validation against the remote cluster.
    pub fn set_active_bucket(&mut self, id: &String, value: String) -> (r: Result<
        (),
        EngineError,
    >)
        requires
            old(self).wf(),
        ensures
            final(self).wf(),
            r is Ok <==> old(self).contains_id(id@),
            r is Err ==> *final(self) == *old(self) && r == Err::<(), EngineError>(
                EngineError::NotFound,
            ),
            r is Ok ==> final(self).entries() == old(self).entries().update(
                old(self).index_of(id@),
                (
                    old(self).entries()[old(self).index_of(id@)].0,
                    ConnectionRecord {
                        active_bucket: Some(value),
                        ..old(self).entries()[old(self).index_of(id@)].1
                    },
                ),
            ),
            final(self).active_id() == old(self).active_id(),
            final(self).active_cloud_id() == old(self).active_cloud_id(),
            final(self).active_cloud_org_id() == old(self).active_cloud_org_id(),
            final(self).active_project_id() == old(self).active_project_id(),
    {
        let i = match self.find(id) {
            Some(i) => i,
            None => {
                return Err(EngineError::NotFound);
            },
        };
        proof {
            self.lemma_found_index(id@, i as int);
        }
        self.items[i].1.active_bucket = Some(value);
        proof {
            self.lemma_same_ids_wf(*old(self));
        }
        Ok(())
    }

    /// Sets the named record's default scope.
    pub fn set_active_scope(&mut self, id: &String, value: String) -> (r: Result<
        (),
        EngineError,
    >)
        requires
            old(self).wf(),
        ensures
            final(self).wf(),
            r is Ok <==> old(self).contains_id(id@),
            r is Err ==> *final(self) == *old(self) && r == Err::<(), EngineError>(
                EngineError::NotFound,
            ),
            r is Ok ==> final(self).entries() == old(self).entries().update(
                old(self).index_of(id@),
                (
                    old(self).entries()[old(self).index_of(id@)].0,
                    ConnectionRecord {
                        active_scope: Some(value),
                        ..old(self).entries()[old(self).index_of(id@)].1
                    },
                ),
            ),
            final(self).active_id() == old(self).active_id(),
            final(self).active_cloud_id() == old(self).active_cloud_id(),
            final(self).active_cloud_org_id() == old(self).active_cloud_org_id(),
            final(self).active_project_id() == old(self).active_project_id(),
    {
        let i = match self.find(id) {
            Some(i) => i,
            None => {
                return Err(EngineError::NotFound);
            },
        };
        proof {
            self.lemma_found_index(id@, i as int);
        }
        self.items[i].1.active_scope = Some(value);
        proof {
            self.lemma_same_ids_wf(*old(self));
        }
        Ok(())
    }

    /// Sets the named record's default collection.
    pub fn set_active_collection(&mut self, id: &String, value: String) -> (r: Result<
        (),
        EngineError,
    >)
        requires
            old(self).wf(),
        ensures
            final(self).wf(),
            r is Ok <==> old(self).contains_id(id@),
            r is Err ==> *final(self) == *old(self) && r == Err::<(), EngineError>(
                EngineError::NotFound,
            ),
            r is Ok ==> final(self).entries() == old(self).entries().update(
                old(self).index_of(id@),
                (
                    old(self).entries()[old(self).index_of(id@)].0,
                    ConnectionRecord {
                        active_collection: Some(value),
                        ..old(self).entries()[old(self).index_of(id@)].1
                    },
                ),
            ),
            final(self).active_id() == old(self).active_id(),
            final(self).active_cloud_id() == old(self).active_cloud_id(),
            final(self).active_cloud_org_id() == old(self).active_cloud_org_id(),
            final(self).active_project_id() == old(self).active_project_id(),
    {
        let i = match self.find(id) {
            Some(i) => i,
            None => {
                return Err(EngineError::NotFound);
            },
        };
        proof {
            self.lemma_found_index(id@, i as int);
        }
        self.items[i].1.active_collection = Some(value);
        proof {
            self.lemma_same_ids_wf(*old(self));
        }
        Ok(())
    }

    /// Sets the active cloud selection; not validated against any registry.
    pub fn set_active_cloud(&mut self, value: Option<String>)
        requires
            old(self).wf(),
        ensures
            final(self).wf(),
            final(self).entries() == old(self).entries(),
            final(self).active_id() == old(self).active_id(),
            final(self).active_cloud_id() == (match value {
                Some(ref v) => Some(v@),
                None => None,
            }),
            final(self).active_cloud_org_id() == old(self).active_cloud_org_id(),
            final(self).active_project_id() == old(self).active_project_id(),
    {
        self.active_cloud = value;
        proof {
            self.lemma_same_ids_wf(*old(self));
        }
    }

    /// Sets the active cloud-organization selection.
    pub fn set_active_cloud_org(&mut self, value: Option<String>)
        requires
            old(self).wf(),
        ensures
            final(self).wf(),
            final(self).entries() == old(self).entries(),
            final(self).active_id() == old(self).active_id(),
            final(self).active_cloud_id() == old(self).active_cloud_id(),
            final(self).active_cloud_org_id() == (match value {
                Some(ref v) => Some(v@),
                None => None,
            }),
            final(self).active_project_id() == old(self).active_project_id(),
    {
        self.active_cloud_org = value;
        proof {
            self.lemma_same_ids_wf(*old(self));
        }
    }

    /// Sets the active cloud-project selection.
    pub fn set_active_project(&mut self, value: Option<String>)
        requires
            old(self).wf(),
        ensures
            final(self).wf(),
            final(self).entries() == old(self).entries(),
            final(self).active_id() == old(self).active_id(),
            final(self).active_cloud_id() == old(self).active_cloud_id(),
            final(self).active_cloud_org_id() == old(self).active_cloud_org_id(),
            final(self).active_project_id() == (match value {
                Some(ref v) => Some(v@),
                None => None,
            }),
    {
        self.active_project = value;
        proof {
            self.lemma_same_ids_wf(*old(self));
        }
    }

    pub fn active_cloud_name(&self) -> (r: Option<String>)
        ensures
            match r {
                Some(s) => self.active_cloud_id() == Some(s@),
                None => self.active_cloud_id() is None,
            },
    {
        clone_opt_string(&self.active_cloud)
    }

    pub fn active_cloud_org_name(&self) -> (r: Option<String>)
        ensures
            match r {
                Some(s) => self.active_cloud_org_id() == Some(s@),
                None => self.active_cloud_org_id() is None,
            },
    {
        clone_opt_string(&self.active_cloud_org)
    }

    pub fn active_project_name(&self) -> (r: Option<String>)
        ensures
            match r {
                Some(s) => self.active_project_id() == Some(s@),
                None => self.active_project_id() is None,
            },
    {
        clone_opt_string(&self.active_project)
    }

    /// Clones the records of the given targets, pairing each identifier with
    /// its record, so that a fan-out never holds the registry across a call.
    pub fn snapshot(&self, targets: &Vec<String>) -> (r: Result<
        Vec<(String, ConnectionRecord)>,
        EngineError,
    >)
        requires
            self.wf(),
        ensures
            r is Ok <==> (forall|i: int|
                0 <= i < targets@.len() ==> self.contains_id(#[trigger] targets@[i]@)),
            r matches Ok(v) ==> v@.len() == targets@.len() && (forall|i: int|
                0 <= i < targets@.len() ==> (#[trigger] v@[i]).0 == targets@[i] && v@[i].1
                    == self.record_of(targets@[i]@)),
            r is Err ==> r == Err::<Vec<(String, ConnectionRecord)>, EngineError>(
                EngineError::NotFound,
            ),
    {
        let mut out: Vec<(String, ConnectionRecord)> = Vec::new();
        let mut i: usize = 0;
        while i < targets.len()
            invariant
                self.wf(),
                i <= targets@.len(),
                out@.len() == i,
                forall|j: int| 0 <= j < i ==> self.contains_id(#[trigger] targets@[j]@),
                forall|j: int|
                    0 <= j < i ==> (#[trigger] out@[j]).0 == targets@[j] && out@[j].1
                        == self.record_of(targets@[j]@),
            decreases targets@.len() - i,
        {
            let rec = match self.get(&targets[i]) {
                Ok(rec) => rec,
                Err(_) => {
                    return Err(EngineError::NotFound);
                },
            };
            out.push((targets[i].clone(), rec.clone()));
            i += 1;
        }
        Ok(out)
    }

    /// Helper: a successful `find` hit is exactly the chosen `index_of`.
    proof fn lemma_found_index(&self, id: Seq<char>, i: int)
        requires
            self.wf(),
            0 <= i < self.ids().len(),
            self.ids()[i] == id,
        ensures
            self.index_of(id) == i,
            self.contains_id(id),
    {
        let w = self.index_of(id);
        assert(0 <= w < self.ids().len() && self.ids()[w] == id);
    }

    /// Helper: a mutation that leaves every identifier in place preserves
    /// uniqueness and keeps the active identifier registered.
    proof fn lemma_same_ids_wf(&self, prev: Registry)
        requires
            prev.wf(),
            self.ids() =~= prev.ids(),
            self.active_id() == prev.active_id(),
        ensures
            self.wf(),
    {
        if self.active_id() is Some {
            let a = self.active_id()->0;
            let w = choose|k: int| 0 <= k < prev.ids().len() && prev.ids()[k] == a;
            assert(self.ids()[w] == a);
        }
    }
}

} // verus!

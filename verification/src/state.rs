//! The node's process-wide state: identity, aggregate health, and the
//! registry of dependent services.

use vstd::prelude::*;

verus! {

/// Aggregate health of the node: a closed tri-state, not a scale.
#[derive(Clone, Copy, Debug, PartialEq, Eq, Structural)]
pub enum HealthLevel {
    Healthy,
    PartiallyHealthy,
    Unhealthy,
}

/// Lifecycle status of one dependent service.
#[derive(Clone, Copy, Debug, PartialEq, Eq, Structural)]
pub enum ServiceStatus {
    Up,
    Down,
    Initializing,
}

/// One dependent service tracked by the node. `id` is the lookup key and is
/// unique within a well-formed registry.
#[derive(Clone, Debug)]
pub struct ServiceRecord {
    pub id: String,
    pub name: String,
    pub description: String,
    pub status: ServiceStatus,
}

/// The node's identity: set once at construction, never mutated.
#[derive(Clone, Debug)]
pub struct NodeIdentity {
    pub name: String,
    pub version: String,
    pub spec_version: String,
}

/// Mathematical model of the store: the identity strings as character
/// sequences, the current health level, and the registry in insertion order.
#[verifier::ext_equal]
pub struct NodeStateModel {
    pub name: Seq<char>,
    pub version: Seq<char>,
    pub spec_version: Seq<char>,
    pub health: HealthLevel,
    pub services: Seq<ServiceRecord>,
}

/// The single shared mutable resource: one identity, one health value, one
/// registry. The owner of the process synchronizes access; every operation
/// here is a plain read or a single-field write.
pub struct NodeStateStore {
    identity: NodeIdentity,
    health: HealthLevel,
    services: Vec<ServiceRecord>,
}

impl View for NodeStateStore {
    type V = NodeStateModel;

    closed spec fn view(&self) -> NodeStateModel {
        NodeStateModel {
            name: self.identity.name@,
            version: self.identity.version@,
            spec_version: self.identity.spec_version@,
            health: self.health,
            services: self.services@,
        }
    }
}

/// The registry keeps at most one record per id.
pub open spec fn wf_services(services: Seq<ServiceRecord>) -> bool {
    forall|i: int, j: int|
        0 <= i < j < services.len() ==> services[i].id@ != services[j].id@
}

/// The model after replacing the aggregate health with `level`.
pub open spec fn model_set_health(m: NodeStateModel, level: HealthLevel) -> NodeStateModel {
    NodeStateModel { health: level, ..m }
}

/// Position of the first record at or after `i` whose id is `id`.
pub open spec fn spec_index_of_from(services: Seq<ServiceRecord>, id: Seq<char>, i: int) -> Option<
    int,
>
    decreases services.len() - i,
{
    if i < 0 || i >= services.len() {
        None
    } else if services[i].id@ == id {
        Some(i)
    } else {
        spec_index_of_from(services, id, i + 1)
    }
}

/// Position of the first record whose id is `id`.
pub open spec fn spec_index_of(services: Seq<ServiceRecord>, id: Seq<char>) -> Option<int> {
    spec_index_of_from(services, id, 0)
}

/// The first record whose id is `id`, by exact character-for-character match.
pub open spec fn spec_find(services: Seq<ServiceRecord>, id: Seq<char>) -> Option<ServiceRecord> {
    match spec_index_of(services, id) {
        Some(i) => Some(services[i]),
        None => None,
    }
}

/// The registry after an upsert: the first record with the same id is
/// replaced in place; with no such record, `record` is appended.
pub open spec fn spec_upsert(services: Seq<ServiceRecord>, record: ServiceRecord) -> Seq<
    ServiceRecord,
> {
    match spec_index_of(services, record.id@) {
        Some(i) => services.update(i, record),
        None => services.push(record),
    }
}

/// The registry after a removal: the first record with id `id` is taken out;
/// with no such record, the registry is unchanged.
pub open spec fn spec_remove(services: Seq<ServiceRecord>, id: Seq<char>) -> Seq<ServiceRecord> {
    match spec_index_of(services, id) {
        Some(i) => services.remove(i),
        None => services,
    }
}

/// The model after an upsert into the registry.
pub open spec fn model_upsert(m: NodeStateModel, record: ServiceRecord) -> NodeStateModel {
    NodeStateModel { services: spec_upsert(m.services, record), ..m }
}

/// The model after a removal from the registry.
pub open spec fn model_remove(m: NodeStateModel, id: Seq<char>) -> NodeStateModel {
    NodeStateModel { services: spec_remove(m.services, id), ..m }
}

/// What `spec_index_of_from` returns: the first match at or after `i`, with
/// no match in between; or a guarantee that no record from `i` on matches.
pub proof fn lemma_index_of_from_props(services: Seq<ServiceRecord>, id: Seq<char>, i: int)
    requires
        0 <= i <= services.len(),
    ensures
        match spec_index_of_from(services, id, i) {
            Some(j) => i <= j < services.len() && services[j].id@ == id && (forall|k: int|
                i <= k < j ==> services[k].id@ != id),
            None => forall|k: int| i <= k < services.len() ==> services[k].id@ != id,
        },
    decreases services.len() - i,
{
    if i < services.len() && services[i].id@ != id {
        lemma_index_of_from_props(services, id, i + 1);
    }
}

/// Replacing the first record that shares `record`'s id, or appending a
/// record whose id is fresh, keeps registry ids unique.
pub proof fn lemma_upsert_preserves_wf(services: Seq<ServiceRecord>, record: ServiceRecord)
    requires
        wf_services(services),
    ensures
        wf_services(spec_upsert(services, record)),
{
    lemma_index_of_from_props(services, record.id@, 0);
    match spec_index_of(services, record.id@) {
        Some(i) => {
            let updated = services.update(i, record);
            assert forall|p: int, q: int| 0 <= p < q < updated.len() implies updated[p].id@
                != updated[q].id@ by {
                if p == i {
                    assert(services[i].id@ == record.id@);
                } else if q == i {
                    assert(services[i].id@ == record.id@);
                }
            }
        },
        None => {
            let pushed = services.push(record);
            assert forall|p: int, q: int| 0 <= p < q < pushed.len() implies pushed[p].id@
                != pushed[q].id@ by {
                if q == services.len() {
                    assert(services[p].id@ != record.id@);
                }
            }
        },
    }
}

/// Removing the first record with a given id keeps registry ids unique.
pub proof fn lemma_remove_preserves_wf(services: Seq<ServiceRecord>, id: Seq<char>)
    requires
        wf_services(services),
    ensures
        wf_services(spec_remove(services, id)),
{
    lemma_index_of_from_props(services, id, 0);
    match spec_index_of(services, id) {
        Some(i) => {
            let shrunk = services.remove(i);
            assert forall|p: int, q: int| 0 <= p < q < shrunk.len() implies shrunk[p].id@
                != shrunk[q].id@ by {
                let p0: int = if p < i { p } else { p + 1 };
                let q0: int = if q < i { q } else { q + 1 };
                assert(shrunk[p] == services[p0]);
                assert(shrunk[q] == services[q0]);
            }
        },
        None => {},
    }
}

impl NodeStateStore {
    /// Registry ids are unique.
    pub open spec fn wf(&self) -> bool {
        wf_services(self@.services)
    }

    /// A fresh store: the given identity, the fixed protocol version,
    /// aggregate health `Healthy`, and an empty registry.
    pub fn new(name: String, version: String) -> (r: NodeStateStore)
        ensures
            r@.name == name@,
            r@.version == version@,
            r@.spec_version == "v0.0.1"@,
            r@.health == HealthLevel::Healthy,
            r@.services == Seq::<ServiceRecord>::empty(),
            r.wf(),
    {
        NodeStateStore {
            identity: NodeIdentity { name, version, spec_version: "v0.0.1".to_owned() },
            health: HealthLevel::Healthy,
            services: Vec::new(),
        }
    }

    /// The immutable identity; always succeeds, no side effects.
    pub fn get_identity(&self) -> (r: &NodeIdentity)
        ensures
            r.name@ == self@.name,
            r.version@ == self@.version,
            r.spec_version@ == self@.spec_version,
    {
        &self.identity
    }

    /// Snapshot of the aggregate health at the instant of the call.
    pub fn get_health(&self) -> (r: HealthLevel)
        ensures
            r == self@.health,
    {
        self.health
    }

    /// Replace the aggregate health; identity and registry are untouched.
    pub fn set_health(&mut self, level: HealthLevel)
        ensures
            final(self)@ == model_set_health(old(self)@, level),
            final(self)@.health == level,
            final(self).wf() == old(self).wf(),
    {
        self.health = level;
    }

    /// Position of the first record whose id equals `id`, if any.
    fn find_index(&self, id: &String) -> (r: Option<usize>)
        ensures
            match r {
                Some(i) => i < self@.services.len() && spec_index_of(self@.services, id@)
                    == Some(i as int),
                None => spec_index_of(self@.services, id@) is None,
            },
    {
        let mut i: usize = 0;
        while i < self.services.len()
            invariant
                i <= self@.services.len(),
                spec_index_of(self@.services, id@) == spec_index_of_from(
                    self@.services,
                    id@,
                    i as int,
                ),
            decreases self@.services.len() - i,
        {
            if self.services[i].id == *id {
                return Some(i);
            }
            i = i + 1;
        }
        None
    }

    /// Linear lookup by exact id match in the registry snapshot: the first
    /// matching record, or `None` when no record carries `id`.
    pub fn find_service<'a>(&'a self, id: &String) -> (r: Option<&'a ServiceRecord>)
        ensures
            match r {
                Some(rec) => spec_find(self@.services, id@) == Some(*rec),
                None => spec_find(self@.services, id@) is None,
            },
    {
        match self.find_index(id) {
            Some(i) => Some(&self.services[i]),
            None => None,
        }
    }

    /// Insert `record`, replacing in place the first record that already
    /// carries its id; identity and health are untouched, and a registry with
    /// unique ids stays that way.
    pub fn upsert_service(&mut self, record: ServiceRecord)
        ensures
            final(self)@ == model_upsert(old(self)@, record),
            old(self).wf() ==> final(self).wf(),
    {
        proof {
            if old(self).wf() {
                lemma_upsert_preserves_wf(old(self)@.services, record);
            }
        }
        match self.find_index(&record.id) {
            Some(i) => {
                self.services.set(i, record);
            },
            None => {
                self.services.push(record);
            },
        }
    }

    /// Remove the first record whose id equals `id`; with no such record the
    /// registry is unchanged. Identity and health are untouched, and a
    /// registry with unique ids stays that way.
    pub fn remove_service(&mut self, id: &String)
        ensures
            final(self)@ == model_remove(old(self)@, id@),
            old(self).wf() ==> final(self).wf(),
    {
        proof {
            if old(self).wf() {
                lemma_remove_preserves_wf(old(self)@.services, id@);
            }
        }
        match self.find_index(id) {
            Some(i) => {
                let _ = self.services.remove(i);
            },
            None => {},
        }
    }
}

} // verus!

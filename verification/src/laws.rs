//! The general properties of the store and the queries, stated over the
//! mathematical model and proved once for all inputs.

use vstd::prelude::*;

use crate::query::StatusSignal;
use crate::query::spec_service_query;
use crate::query::spec_service_signal;
use crate::state::HealthLevel;
use crate::state::NodeStateModel;
use crate::state::ServiceRecord;
use crate::state::lemma_index_of_from_props;
use crate::state::model_remove;
use crate::state::model_set_health;
use crate::state::model_upsert;
use crate::state::spec_find;
use crate::state::spec_index_of;
use crate::state::wf_services;

verus! {

/// One mutation of the store, as its owner may issue it: replace the
/// aggregate health, upsert a service record, or remove a record by id.
pub enum StoreMutation {
    SetHealth(HealthLevel),
    Upsert(ServiceRecord),
    Remove(Seq<char>),
}

/// The model after one mutation.
pub open spec fn apply_mutation(m: NodeStateModel, op: StoreMutation) -> NodeStateModel {
    match op {
        StoreMutation::SetHealth(level) => model_set_health(m, level),
        StoreMutation::Upsert(record) => model_upsert(m, record),
        StoreMutation::Remove(id) => model_remove(m, id),
    }
}

/// The model after a sequence of mutations, applied in order.
pub open spec fn apply_mutations(m: NodeStateModel, ops: Seq<StoreMutation>) -> NodeStateModel
    decreases ops.len(),
{
    if ops.len() == 0 {
        m
    } else {
        apply_mutations(apply_mutation(m, ops[0]), ops.drop_first())
    }
}

/// Write-then-read consistency: after the aggregate health is replaced with
/// `level`, reading it back yields exactly `level`, whatever the prior state.
pub proof fn lemma_health_write_then_read(m: NodeStateModel, level: HealthLevel)
    ensures
        model_set_health(m, level).health == level,
{
}

/// Querying the id of a record that a well-formed registry holds yields the
/// signal of that record's own status, regardless of the registry's contents
/// for other ids.
pub proof fn lemma_query_present(services: Seq<ServiceRecord>, rec: ServiceRecord)
    requires
        wf_services(services),
        services.contains(rec),
    ensures
        spec_find(services, rec.id@) == Some(rec),
        spec_service_query(services, rec.id@) == spec_service_signal(rec.status),
{
    let i = choose|i: int| 0 <= i < services.len() && services[i] == rec;
    lemma_index_of_from_props(services, rec.id@, 0);
    match spec_index_of(services, rec.id@) {
        Some(j) => {
            if i < j {
                assert(services[i].id@ != services[j].id@);
            } else if j < i {
                assert(services[j].id@ != services[i].id@);
            }
        },
        None => {
            assert(services[i].id@ == rec.id@);
        },
    }
}

/// Querying an id that no record carries answers not-found, regardless of
/// the registry's contents for other ids.
pub proof fn lemma_query_absent(services: Seq<ServiceRecord>, id: Seq<char>)
    requires
        forall|i: int| 0 <= i < services.len() ==> services[i].id@ != id,
    ensures
        spec_service_query(services, id) == StatusSignal::NotFound,
{
    lemma_index_of_from_props(services, id, 0);
}

/// The node's identity is invariant across any number of health or registry
/// mutations: it never changes after construction.
pub proof fn lemma_identity_invariant(m: NodeStateModel, ops: Seq<StoreMutation>)
    ensures
        apply_mutations(m, ops).name == m.name,
        apply_mutations(m, ops).version == m.version,
        apply_mutations(m, ops).spec_version == m.spec_version,
    decreases ops.len(),
{
    if ops.len() > 0 {
        lemma_identity_invariant(apply_mutation(m, ops[0]), ops.drop_first());
    }
}

/// The health enumeration is closed: every value a reader can observe is one
/// of the three declared levels, never a value outside the enumeration.
pub proof fn lemma_health_level_closed(level: HealthLevel)
    ensures
        level is Healthy || level is PartiallyHealthy || level is Unhealthy,
{
}

} // verus!

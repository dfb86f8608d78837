//! The three read-only queries over the store, and the mapping from health
//! and service state to protocol-level status signals.

use vstd::prelude::*;

use crate::state::HealthLevel;
use crate::state::NodeStateStore;
use crate::state::ServiceRecord;
use crate::state::ServiceStatus;
use crate::state::spec_find;

verus! {

/// The externally observable outcome of a query, one signal per
/// protocol-level status code.
#[derive(Clone, Copy, Debug, PartialEq, Eq, Structural)]
pub enum StatusSignal {
    Success,
    Partial,
    Unavailable,
    NotFound,
}

/// The numeric protocol status code that each signal stands for.
pub open spec fn spec_signal_code(signal: StatusSignal) -> u16 {
    match signal {
        StatusSignal::Success => 200,
        StatusSignal::Partial => 206,
        StatusSignal::Unavailable => 503,
        StatusSignal::NotFound => 404,
    }
}

impl StatusSignal {
    /// The numeric protocol status code that this signal stands for.
    pub fn code(self) -> (r: u16)
        ensures
            r == spec_signal_code(self),
    {
        match self {
            StatusSignal::Success => 200,
            StatusSignal::Partial => 206,
            StatusSignal::Unavailable => 503,
            StatusSignal::NotFound => 404,
        }
    }
}

/// The single mapping table from aggregate health to status signal.
pub open spec fn spec_health_signal(level: HealthLevel) -> StatusSignal {
    match level {
        HealthLevel::Healthy => StatusSignal::Success,
        HealthLevel::PartiallyHealthy => StatusSignal::Partial,
        HealthLevel::Unhealthy => StatusSignal::Unavailable,
    }
}

/// The single mapping table from a service's status to a status signal.
pub open spec fn spec_service_signal(status: ServiceStatus) -> StatusSignal {
    match status {
        ServiceStatus::Up => StatusSignal::Success,
        ServiceStatus::Down => StatusSignal::Unavailable,
        ServiceStatus::Initializing => StatusSignal::Partial,
    }
}

/// What the per-service query answers: the signal of the first record with
/// the queried id, or not-found when no record carries it.
pub open spec fn spec_service_query(services: Seq<ServiceRecord>, id: Seq<char>) -> StatusSignal {
    match spec_find(services, id) {
        Some(rec) => spec_service_signal(rec.status),
        None => StatusSignal::NotFound,
    }
}

/// Map an aggregate health level to its status signal.
pub fn health_signal(level: HealthLevel) -> (r: StatusSignal)
    ensures
        r == spec_health_signal(level),
{
    match level {
        HealthLevel::Healthy => StatusSignal::Success,
        HealthLevel::PartiallyHealthy => StatusSignal::Partial,
        HealthLevel::Unhealthy => StatusSignal::Unavailable,
    }
}

/// Map a service status to its status signal.
pub fn service_signal(status: ServiceStatus) -> (r: StatusSignal)
    ensures
        r == spec_service_signal(status),
{
    match status {
        ServiceStatus::Up => StatusSignal::Success,
        ServiceStatus::Down => StatusSignal::Unavailable,
        ServiceStatus::Initializing => StatusSignal::Partial,
    }
}

/// The structured document that the identity query returns.
pub struct IdentityResponse {
    pub node_name: String,
    pub spec_version: String,
    pub node_version: String,
}

/// The identity query: a pure projection of the node's identity. Always
/// succeeds; never changes after the store is constructed.
pub fn identity_query(store: &NodeStateStore) -> (r: IdentityResponse)
    ensures
        r.node_name@ == store@.name,
        r.spec_version@ == store@.spec_version,
        r.node_version@ == store@.version,
{
    let identity = store.get_identity();
    IdentityResponse {
        node_name: identity.name.clone(),
        spec_version: identity.spec_version.clone(),
        node_version: identity.version.clone(),
    }
}

/// The aggregate health query: the signal of the current health snapshot.
/// Always succeeds at the query level; failure is which signal comes back.
pub fn health_query(store: &NodeStateStore) -> (r: StatusSignal)
    ensures
        r == spec_health_signal(store@.health),
        r != StatusSignal::NotFound,
{
    health_signal(store.get_health())
}

/// The per-service health query: look the id up by exact match, then map the
/// record's status; an absent id answers not-found. An empty id is a legal
/// lookup key, not an error.
pub fn service_health_query(store: &NodeStateStore, service_id: &String) -> (r: StatusSignal)
    ensures
        r == spec_service_query(store@.services, service_id@),
{
    match store.find_service(service_id) {
        Some(rec) => service_signal(rec.status),
        None => StatusSignal::NotFound,
    }
}

} // verus!

//! In-memory introspection state for a long-running network node.
//!
//! The crate holds a [`state::NodeStateStore`]: a fixed node identity, one
//! aggregate health value and a registry of dependent-service records keyed
//! by a unique id. The [`query`] module translates store reads into protocol
//! status signals; [`laws`] states and proves the general properties of the
//! store and the queries.

pub mod laws;
pub mod query;
pub mod state;

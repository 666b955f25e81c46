//! The state transition's plumbing: the spec of the Strata ASM, the manager that collects
//! what the subprotocols relay, emit and request, and the grouping of tagged transactions
//! by subprotocol.

pub mod manager;
pub mod spec;
pub mod tx_filter;
pub mod loader;

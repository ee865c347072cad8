//! Composition layer for a node's externally reachable request/response API.
//!
//! A node exposes many independently implemented subsystems (consensus,
//! finality voting, data availability, transaction pool, chain metadata,
//! historical state) through one method namespace.  This crate holds the
//! machinery that wires them together: shared resource handles, per-adapter
//! method sets, a global safety policy, runtime feature gates, and a
//! composite registry with a mandatory collision check and an explicit
//! Open -> Sealed life cycle.

pub mod adapters;
pub mod compose;
pub mod laws;
pub mod methods;
pub mod policy;
pub mod registry;
pub mod resources;

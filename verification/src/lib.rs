//! A per-owner, append-only product store.
//!
//! Every owner identity has at most one storage slot. The slot lives at an
//! address derived from a fixed namespace tag and the owner's key, and holds
//! an ordered list of product records together with the bump byte that was
//! used to derive its address.

pub mod errors;
pub mod instructions;
pub mod laws;
pub mod locator;
pub mod program;
pub mod state;

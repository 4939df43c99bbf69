//! The three operations on a slot: create it, append a record, list the
//! records. Each works on the accounts of one call, after the address guard
//! has let the call through.

pub mod check_store;
pub mod initialize;
pub mod record_incoming;

pub use check_store::{check_store, CheckStore};
pub use initialize::{initialize, Initialize};
pub use record_incoming::{record_incoming, RecordIncoming};

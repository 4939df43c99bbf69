//! What a slot holds: product records and the account that keeps them.

pub mod store;
pub mod store_account;

pub use store::{Store, StoreView};
pub use store_account::{StoreAccount, StoreAccountView};

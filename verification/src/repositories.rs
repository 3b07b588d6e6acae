//! The repositories: which query stands for which operation on a table, and
//! which record a caller holds once an insert is answered.
//!
//! A method named after an operation builds its query and touches nothing.
//! The answer to a lookup, a listing, an update or a delete is read with the
//! matching `into_*` method of [`crate::storage::reply::Reply`]; the answer
//! to an insert with the `*_created` method beside the one that built it.

pub mod inventory_repo;
pub mod store_repo;
pub mod user_repo;

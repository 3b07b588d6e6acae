//! What holds of the library with every store that keeps to the contract of
//! [`crate::storage::contract`].

pub mod accounts;
pub mod storage;

//! The operations that the host offers its callers on accounts and stores.
//! Those on authentication and on the inventory are the services' own.

pub mod store;
pub mod user;

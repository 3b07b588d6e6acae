//! The records of the data model, each with its mathematical view.

pub mod inventory;
pub mod store;
pub mod user;

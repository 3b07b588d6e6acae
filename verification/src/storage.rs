//! The boundary between the library and the relational store: what is asked,
//! what is answered, and what a store must do with each query.

pub mod contract;
pub mod memory;
pub mod query;
pub mod reply;
pub mod statement;

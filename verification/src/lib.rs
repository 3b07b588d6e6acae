//! Verified core of a point-of-sale backend: operator accounts and roles,
//! stores, product categories and products, kept in a relational store that
//! the host reaches for this library.
//!
//! The library performs no storage I/O. Every operation is a
//! [`flow::Flow`]: it names the [`storage::query::Query`] that it wants
//! answered, and decides from the [`storage::reply::Reply`] what to ask next
//! or what to return. The host sends each query to its database as the
//! statement that [`storage::query::Query::statement`] gives.
//!
//! [`storage::contract`] states what a store must do with each query. The
//! laws in [`laws`] are proved for every store that keeps to it, and
//! [`storage::memory::MemoryStore`] is one that does.

pub mod commands;
pub mod db;
pub mod errors;
pub mod flow;
pub mod laws;
pub mod models;
pub mod password;
pub mod repositories;
pub mod services;
pub mod storage;

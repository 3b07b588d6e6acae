//! The services: what each operation asks of the store, in which order, and
//! what it makes of the answers.

pub mod auth_service;
pub mod inventory_service;

//! Core of an order-management service: request validation, an order store
//! modelling the persisted table, derived-field computation, the error
//! taxonomy, and construction of the outcome reports that the service emits
//! after every operation.

pub mod basics;
mod clock;
pub mod config;
pub mod digits;
pub mod errors;
pub mod laws;
pub mod models;
pub mod money;
pub mod repository;
pub mod service;
pub mod validate;

//! Core of an AI API gateway: the data model, password and token hashing,
//! a per-channel circuit breaker and the SQLite-backed store.

pub mod auth;
pub mod circuit_breaker;
pub mod clock;
pub mod db;
pub mod json;
pub mod models;
pub mod rows;
pub mod sql;
pub mod writes;

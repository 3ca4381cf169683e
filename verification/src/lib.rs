//! Core rules of a newsletter service: validated domain values, password
//! hashing and credential checks, single-use reset tokens, idempotent
//! publication and the decisions the HTTP handlers take.

pub mod text;
pub mod secret;
pub mod random;
pub mod digest;
pub mod domain;
pub mod authentication;
pub mod repository;
pub mod idempotency;
pub mod utils;
pub mod email_client;
pub mod configuration;
pub mod startup;
pub mod routes;

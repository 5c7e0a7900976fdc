//! Derivation of OpenAPI component schemas from descriptions of Rust types.
pub mod naming;
pub mod types;
pub mod rules;
pub mod schema;
pub mod property;
pub mod component;
pub mod laws;
pub mod swagger;

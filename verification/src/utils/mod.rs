//! Identifier generation, the service's error type and field checks.

pub mod id_generator;
pub mod validation;
pub mod web_error;

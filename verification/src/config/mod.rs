//! Service settings.

pub mod settings;

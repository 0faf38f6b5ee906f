//! Request and response bodies of the HTTP interface.

pub mod task_model;

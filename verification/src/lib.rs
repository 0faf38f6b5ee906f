//! Task bookkeeping service for an operation center: main tasks, their
//! subtasks, installation settings files, backups and the web front end.
//! Everything here decides or computes; reading, writing and serving is
//! done by the surrounding program, which hands plain values in and out.

pub mod text;
pub mod entity;
pub mod utils;
pub mod models;
pub mod config;
pub mod handlers;
pub mod formats;
pub mod routes;
pub mod assets;

//! Activity capture, rule evaluation and Discord presence text for a desktop
//! activity reporter.
pub mod text;
pub mod models;
pub mod platform;
pub mod rules;
pub mod reporter;
pub mod tray;
pub mod state_store;
pub mod laws;

//! The local monitor: its shared state and the decisions of its capture loop.
pub mod state;
pub mod worker;
pub mod lifecycle;

//! Configured services, their runtime state and lifecycle.

pub mod config;
pub mod lifecycle;
pub mod manager;
pub mod state;

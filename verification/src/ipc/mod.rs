//! The IPC channel between the app's pages (and service pages) and the core:
//! URL and console transports, message model, trust gating and dispatch.

pub mod badges;
pub mod handler;
pub mod message;
pub mod pages;
pub mod transport;

//! OmniChat core: the verified logic of a messaging aggregator that hosts
//! Ferdium-compatible service recipes in separate web views.

pub mod app;
pub mod instance;
pub mod ipc;
pub mod json;
pub mod notification;
pub mod png;
pub mod recipe;
pub mod service;
pub mod settings;
pub mod text;
pub mod tray;

//! Ferdium-compatible recipes: their model, how they are selected after
//! loading, and the JavaScript injected into a service page.

pub mod injector;
pub mod loader;
pub mod model;

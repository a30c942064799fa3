//! A directive interpreter for PBRT-v4 style scene descriptions.
//!
//! Directives come in already tokenized; the interpreter keeps a scoped
//! graphics state, named symbol tables, object templates and a stack of
//! included sources, and builds a [`scene::Scene`] out of them.
pub mod directive;
pub mod laws;
pub mod loader;
pub mod params;
pub mod scene;
pub mod session;
pub mod sources;
pub mod state;
pub mod tables;
pub mod transform;

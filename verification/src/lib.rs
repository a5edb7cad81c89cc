//! Core of an asynchronous resource loader: a generation-checked handle table
//! of in-flight loads, and per-load pipelines (movie loads and form loads)
//! written as verified state machines. Long-latency work — fetching bytes,
//! running script handlers, mutating the scene graph — is performed by the
//! embedder; the pipelines decide what happens and in which order, and emit
//! those effects as explicit actions.

pub mod ids;
pub mod handle;
pub mod outcome;
pub mod action;
pub mod loader;
pub mod manager;
pub mod movie;
pub mod form;
pub mod laws;

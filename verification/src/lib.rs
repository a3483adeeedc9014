//! Core engine of a keyboard-driven terminal dashboard for a space-trading
//! game: the navigation state machine, the wrap-around list-selection model,
//! the world-to-grid coordinate projector, and the per-view content renderer.
//! Terminal painting and the remote data provider live outside this crate;
//! everything here is pure logic over plain values.

pub mod app;
pub mod client;
pub mod models;
pub mod nav;
pub mod project;
pub mod render;
pub mod selection;
pub mod style;

//! A verified model of a WebGL context-loss event: a concrete DOM event type
//! that carries a status message and delegates its remaining behaviour to a
//! base `Event`.
//!
//! The crate is laid out leaves-first: the base [`event::Event`] abstraction,
//! the [`global::GlobalScope`] registry that hands out garbage-collection
//! style handles, and the [`webglcontextevent::WebGLContextEvent`] type
//! itself with its two construction paths.

pub mod event;
pub mod global;
pub mod webglcontextevent;

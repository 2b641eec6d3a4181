//! Interactive stroke-authoring engine for a freehand marker drawing tool.
//!
//! The engine converts a live sequence of pointer events into a persisted
//! vector stroke while producing render commands for low-latency visual
//! feedback: incremental patches while drawing, one full self-overlap-free
//! regeneration when input ends.
//!
//! All scalars are fixed-point integers: a coordinate, width or color channel
//! is stored in thousandths of its unit (see [`geometry::UNIT`]). Rasterization
//! itself and the UI that surfaces pen configuration are outside collaborators;
//! this crate owns the geometry, the tool state machine and the render
//! scheduling decisions.

pub mod builder;
pub mod color;
pub mod config;
pub mod engine;
pub mod geometry;
pub mod marker;
pub mod penpath;
pub mod stroke;

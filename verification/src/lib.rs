//! A 2D ink-drawing engine core: strokes built incrementally from pointer
//! samples, a layered document model with bounded undo/redo history, and an
//! abstract render-command generator.
//!
//! Scalar quantities (coordinates, widths, color channels) are carried as
//! opaque IEEE-754 bit patterns (`u64` for doubles, `u32` for singles); the
//! numeric kernel that computes with them lives outside this library. The
//! library owns and verifies everything structural: the stroke builder's
//! segment policy, the document and history state machines, eraser
//! selection, and render-command generation.

pub mod brush;
pub mod canvas;
pub mod geometry;
pub mod history;
pub mod eraser;
pub mod layer;
mod ids;
pub mod point;
pub mod render;
pub mod serialization;
pub mod transform;
pub mod stroke;

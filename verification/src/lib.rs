//! Core of a small interactive renderer: the frame state machine behind a
//! resizable surface that clears to a pointer-driven color and draws one of
//! several fixed pipelines (two bufferless triangles and an indexed mesh).
//!
//! Color channels and mesh coordinates are held as integers in millionths of
//! a unit, so every update rule is exact; the windowing and GPU layers turn
//! these into their floating-point equivalents at the boundary.

pub mod color;
pub mod frame;
pub mod geometry;
pub mod pipeline;
pub mod state;
pub mod surface;

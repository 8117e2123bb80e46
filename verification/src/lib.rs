//! Core engine of a terminal battery indicator: glyph geometry derived from
//! the terminal dimensions, a blink finite-state machine advanced once per
//! refresh tick, and a renderer that maps charge percentage and blink phase
//! to a per-cell draw plan. All terminal and battery I/O lives outside this
//! crate; the functions here work on plain snapshots of those inputs.

pub mod blink;
pub mod render;
pub mod geometry;
pub mod text;


//! A small retained-mode UI layer: objects carrying visual styles, hover-tracked
//! rectangles with dirty flags, and a window state machine that decides when a
//! display list must be rebuilt and what it contains.
//!
//! Geometry is kept in whole layout pixels and colors in 8-bit channels, so that
//! every rule of the library can be stated and proved over integers.

pub mod geometry;
pub mod display_list;
pub mod style;
pub mod event;
pub mod renderable;
pub mod object;
pub mod rectangle;
pub mod primitives;
pub mod window;

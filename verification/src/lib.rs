//! A picker that lets a user choose one display output by clicking on a scaled
//! drawing of the monitor arrangement.
//!
//! All geometry is exact: world rectangles are whole pixels, the scale factor
//! is a ratio of two integers, and screen coordinates are integers counted in
//! a fixed fraction of a pixel.

pub mod font;
pub mod geometry;
pub mod label;
pub mod layout;
pub mod output_grid;
pub mod shell;
pub mod theme;

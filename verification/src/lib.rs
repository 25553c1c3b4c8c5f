//! A small Game of Life library: a flat boolean grid, the birth/survival
//! update rule, and a rasterizer that turns the grid into RGBA pixel bytes.

pub mod laws;
pub mod life;

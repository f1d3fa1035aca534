//! Conway's Game of Life on a bounded grid: a sparse cell population,
//! one-generation rule evaluation, resize/reprojection, a preview overlay,
//! and a catalog of named seed patterns.

pub mod grid;
pub mod seed;

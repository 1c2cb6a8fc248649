//! Per-frame simulation core of a top-down asteroid shooter.
//!
//! All coordinates are fixed-point integers: [`geometry::UNITS_PER_PIXEL`]
//! units make one pixel, and [`geometry::UNITS_PER_DEGREE`] angle units make
//! one degree. Headings are measured clockwise from "up" (negative `y`).
pub mod geometry;
pub mod ship;
pub mod asteroid;
pub mod simulation;

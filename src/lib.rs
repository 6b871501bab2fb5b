//! Path model and coordinate transform of a click-driven field path planner.
//!
//! Positions are held in hundredths of a screen pixel, displacements in
//! millionths of a foot, so that the planner computes on integers alone;
//! a displacement is the nearest millionth of a foot to the exact value.
pub mod geometry;
pub mod path;
pub mod text;

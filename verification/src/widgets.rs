//! Container widgets and the sizing policies of their children.

pub mod axis;
pub mod axis_bounds;
pub mod axis_laws;
pub mod bounds;
pub mod column;
pub mod controls;
pub mod grid;
pub mod linear;
pub mod linear_laws;
pub mod row;
pub mod solver;

use vstd::prelude::*;

verus! {

/// How a child of a `Row` or `Column` is sized along the container's main
/// axis.
///
/// A ratio is a whole-number weight: a child's share of the space that the
/// fixed children leave is its weight over the sum of all weights.
#[derive(Debug, Clone, Copy, PartialEq, Eq, Structural)]
pub enum LayoutMode {
    /// Fixed number of pixels.
    Fixed(i32),
    /// Ratio of the remaining space.
    Ratio(u32),
    /// Value range constraint ratio.
    Range {
        /// Minimum value.
        min: Option<i32>,
        /// Maximum value.
        max: Option<i32>,
        /// Ratio of the remaining space.
        ratio: u32,
    },
}

} // verus!

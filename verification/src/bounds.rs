//! Axis-aligned bounding box over the decoded vertex set.
//!
//! The six extremes are float words (bit patterns); an empty box holds the
//! sentinel +infinity minima and -infinity maxima.

use crate::fbits::F32_NEG_INF;
use crate::fbits::F32_POS_INF;
use vstd::prelude::*;

verus! {

/// Per-axis minima and maxima of the vertex positions, as float words.
#[derive(Copy, Clone, Debug)]
pub struct Bounds {
    pub min: [u32; 3],
    pub max: [u32; 3],
}

impl Bounds {
    /// The empty box: +infinity minima, -infinity maxima on every axis.
    pub fn default() -> (r: Self)
        ensures
            forall|j: int| 0 <= j < 3 ==> r.min@[j] == F32_POS_INF && r.max@[j] == F32_NEG_INF,
    {
        Self { min: [F32_POS_INF, F32_POS_INF, F32_POS_INF], max: [F32_NEG_INF, F32_NEG_INF, F32_NEG_INF] }
    }
}

} // verus!

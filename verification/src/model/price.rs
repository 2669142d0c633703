//! Rates offered for a platform.

use vstd::prelude::*;

verus! {

/// An allowed range with its step.
#[derive(Debug, Clone)]
pub struct MinMaxStep {
    pub min: u32,
    pub max: u32,
    pub step: u32,
}

/// One rate. The vendor sends `price` as a fractional number; the library
/// carries its decimal text unchanged.
#[derive(Debug, Clone)]
pub struct Price {
    pub id: u32,
    pub name: String,
    pub format: String,
    pub price: String,
    pub description: String,
    pub views: MinMaxStep,
    pub online_viewers: MinMaxStep,
}

} // verus!

//! Traffic breakdown records.

use vstd::prelude::*;

verus! {

/// One traffic bucket: a country, language or device code with its share.
#[derive(Debug, Clone)]
pub struct Traffic {
    pub code: String,
    pub quantity: u32,
}

} // verus!

//! Price categories.

use vstd::prelude::*;

verus! {

/// One price category.
#[derive(Debug, Clone)]
pub struct PriceCategory {
    pub id: u32,
    pub is_active: bool,
    pub name: String,
    pub description: String,
}

} // verus!

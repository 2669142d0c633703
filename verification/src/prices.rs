//! Paths of the price endpoints.

use vstd::prelude::*;
use vstd::string::StringExecFns;
use crate::model::platform::Platform;

verus! {

/// The path that lists the rates of one platform.
pub fn get_prices_path(platform: Platform) -> (r: String)
    ensures
        r@ == "/prices/"@ + platform.spec_slug() + "/"@,
{
    String::from_str("/prices/").concat(platform.as_str()).concat("/")
}

/// The path that lists all price categories.
pub fn get_categories_path() -> (r: &'static str)
    ensures
        r@ == "/price-categories/"@,
{
    "/price-categories/"
}

} // verus!

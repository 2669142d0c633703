//! Paths of the traffic breakdown endpoints.

use vstd::prelude::*;

verus! {

/// The path of the traffic breakdown by country.
pub fn countries_path() -> (r: &'static str)
    ensures
        r@ == "/traffic/countries/"@,
{
    "/traffic/countries/"
}

/// The path of the traffic breakdown by language.
pub fn languages_path() -> (r: &'static str)
    ensures
        r@ == "/traffic/languages/"@,
{
    "/traffic/languages/"
}

} // verus!

//! Paths of the account endpoints.

use vstd::prelude::*;

verus! {

/// The path of the account's balance.
pub fn balance_path() -> (r: &'static str)
    ensures
        r@ == "/user/balance/"@,
{
    "/user/balance/"
}

/// The path of the account itself.
pub fn account_path() -> (r: &'static str)
    ensures
        r@ == "/user/"@,
{
    "/user/"
}

} // verus!

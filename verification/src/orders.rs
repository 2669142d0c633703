//! Paths of the order listing, detail, statistics, payment and creation
//! endpoints. The list and payment endpoints are cursor-paginated: the
//! cursor is opaque and is forwarded verbatim into the query string.

use vstd::prelude::*;
use vstd::string::StringExecFns;
use crate::model::platform::Platform;
use crate::text::dec_rep;
use crate::text::u32_string;

verus! {

/// The path that lists orders, continuing from `cursor` when one is given.
pub fn all_orders_path(cursor: Option<&str>) -> (r: String)
    ensures
        cursor matches Some(c) ==> r@ == "/orders/?cursor="@ + c@,
        cursor is None ==> r@ == "/orders/"@,
{
    match cursor {
        Option::Some(c) => String::from_str("/orders/?cursor=").concat(c),
        Option::None => String::from_str("/orders/"),
    }
}

/// The path of one order's details.
pub fn order_details_path(order_id: u32) -> (r: String)
    ensures
        r@ == "/orders/"@ + dec_rep(order_id as nat) + "/"@,
{
    String::from_str("/orders/").concat(u32_string(order_id).as_str()).concat("/")
}

/// The path of one order's users-online history.
pub fn online_stats_path(order_id: u32) -> (r: String)
    ensures
        r@ == "/orders/"@ + dec_rep(order_id as nat) + "/statistics/online/"@,
{
    String::from_str("/orders/").concat(u32_string(order_id).as_str()).concat(
        "/statistics/online/",
    )
}

/// The path of one order's click statistics.
pub fn clicks_stats_path(order_id: u32) -> (r: String)
    ensures
        r@ == "/orders/"@ + dec_rep(order_id as nat) + "/statistics/clicks/"@,
{
    String::from_str("/orders/").concat(u32_string(order_id).as_str()).concat(
        "/statistics/clicks/",
    )
}

/// The path of one order's view statistics.
pub fn views_stats_path(order_id: u32) -> (r: String)
    ensures
        r@ == "/orders/"@ + dec_rep(order_id as nat) + "/statistics/views/"@,
{
    String::from_str("/orders/").concat(u32_string(order_id).as_str()).concat(
        "/statistics/views/",
    )
}

/// The path of one order's per-site statistics.
pub fn sites_stats_path(order_id: u32) -> (r: String)
    ensures
        r@ == "/orders/"@ + dec_rep(order_id as nat) + "/statistics/sites/"@,
{
    String::from_str("/orders/").concat(u32_string(order_id).as_str()).concat(
        "/statistics/sites/",
    )
}

/// The path that lists one order's payments, continuing from `cursor` when
/// one is given.
pub fn payments_path(order_id: u32, cursor: Option<&str>) -> (r: String)
    ensures
        cursor matches Some(c) ==> r@ == "/orders/"@ + dec_rep(order_id as nat)
            + "/payments/?cursor="@ + c@,
        cursor is None ==> r@ == "/orders/"@ + dec_rep(order_id as nat) + "/payments/"@,
{
    let base = String::from_str("/orders/").concat(u32_string(order_id).as_str());
    match cursor {
        Option::Some(c) => base.concat("/payments/?cursor=").concat(c),
        Option::None => base.concat("/payments/"),
    }
}

/// The path that creates a stream order on the given platform; the request
/// carries the platform's serialized creation payload as its body.
pub fn create_stream_path(platform: Platform) -> (r: String)
    ensures
        r@ == "/orders/create/"@ + platform.spec_slug() + "/stream/"@,
{
    String::from_str("/orders/create/").concat(platform.as_str()).concat("/stream/")
}

/// The path of the batch view statistics; the request carries the
/// serialized order ids as its body.
pub fn multiple_views_stats_path() -> (r: &'static str)
    ensures
        r@ == "/orders/multiple/views/"@,
{
    "/orders/multiple/views/"
}

/// The path of the batch click statistics; the request carries the
/// serialized order ids as its body.
pub fn multiple_clicks_stats_path() -> (r: &'static str)
    ensures
        r@ == "/orders/multiple/clicks/"@,
{
    "/orders/multiple/clicks/"
}

} // verus!

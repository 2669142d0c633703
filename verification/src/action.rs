//! Paths of the order-action endpoints. Each call sends PATCH (GET for the
//! task poll) to the path built here, with no body except where noted, and
//! decodes the action envelope from the answer.

use vstd::prelude::*;
use vstd::string::StringExecFns;
use crate::text::dec_rep;
use crate::text::u32_string;

verus! {

/// The path that runs an order.
pub fn run_path(order_id: u32) -> (r: String)
    ensures
        r@ == "/orders/"@ + dec_rep(order_id as nat) + "/action/run/"@,
{
    String::from_str("/orders/").concat(u32_string(order_id).as_str()).concat("/action/run/")
}

/// The path that stops an order.
pub fn stop_path(order_id: u32) -> (r: String)
    ensures
        r@ == "/orders/"@ + dec_rep(order_id as nat) + "/action/stop/"@,
{
    String::from_str("/orders/").concat(u32_string(order_id).as_str()).concat("/action/stop/")
}

/// The path that cancels an order.
pub fn cancel_path(order_id: u32) -> (r: String)
    ensures
        r@ == "/orders/"@ + dec_rep(order_id as nat) + "/action/cancel/"@,
{
    String::from_str("/orders/").concat(u32_string(order_id).as_str()).concat("/action/cancel/")
}

/// The path that changes the number of online viewers.
pub fn change_online_path(order_id: u32, value: u32) -> (r: String)
    ensures
        r@ == "/orders/"@ + dec_rep(order_id as nat) + "/action/change/online/"@
            + dec_rep(value as nat) + "/"@,
{
    String::from_str("/orders/").concat(u32_string(order_id).as_str()).concat(
        "/action/change/online/",
    ).concat(u32_string(value).as_str()).concat("/")
}

/// The path that changes the increase time.
pub fn change_increase_time_path(order_id: u32, value: u32) -> (r: String)
    ensures
        r@ == "/orders/"@ + dec_rep(order_id as nat) + "/action/increase/change/"@
            + dec_rep(value as nat) + "/"@,
{
    String::from_str("/orders/").concat(u32_string(order_id).as_str()).concat(
        "/action/increase/change/",
    ).concat(u32_string(value).as_str()).concat("/")
}

/// The path that enables the gradual increase of viewers.
pub fn enable_increase_of_viewers_path(order_id: u32, value: u32) -> (r: String)
    ensures
        r@ == "/orders/"@ + dec_rep(order_id as nat) + "/action/increase/on/"@
            + dec_rep(value as nat) + "/"@,
{
    String::from_str("/orders/").concat(u32_string(order_id).as_str()).concat(
        "/action/increase/on/",
    ).concat(u32_string(value).as_str()).concat("/")
}

/// The path that disables the gradual increase of viewers.
pub fn disable_increase_of_viewers_path(order_id: u32) -> (r: String)
    ensures
        r@ == "/orders/"@ + dec_rep(order_id as nat) + "/action/increase/off/"@,
{
    String::from_str("/orders/").concat(u32_string(order_id).as_str()).concat(
        "/action/increase/off/",
    )
}

/// The path that adds views to an order.
pub fn add_views_path(order_id: u32, value: u32) -> (r: String)
    ensures
        r@ == "/orders/"@ + dec_rep(order_id as nat) + "/action/add/views/"@
            + dec_rep(value as nat) + "/"@,
{
    String::from_str("/orders/").concat(u32_string(order_id).as_str()).concat(
        "/action/add/views/",
    ).concat(u32_string(value).as_str()).concat("/")
}

/// The path that polls an asynchronous task, addressed by the opaque task
/// id the action returned.
pub fn task_status_path(order_id: u32, task_id: &str) -> (r: String)
    ensures
        r@ == "/orders/"@ + dec_rep(order_id as nat) + "/task/"@ + task_id@ + "/status/"@,
{
    String::from_str("/orders/").concat(u32_string(order_id).as_str()).concat("/task/").concat(
        task_id,
    ).concat("/status/")
}

/// The path that changes an order's launch mode; the request carries the
/// serialized launch parameters as its body.
pub fn change_launch_mode_path(order_id: u32) -> (r: String)
    ensures
        r@ == "/orders/"@ + dec_rep(order_id as nat) + "/action/change/launch/"@,
{
    String::from_str("/orders/").concat(u32_string(order_id).as_str()).concat(
        "/action/change/launch/",
    )
}

} // verus!

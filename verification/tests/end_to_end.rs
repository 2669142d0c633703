//! The full client path against canned vendor answers: authenticate, build
//! the order-detail request, classify the response and decode the order.

use reydenx::client::Auth;
use reydenx::client::AuthStep;
use reydenx::client::Client;
use reydenx::client::Method;
use reydenx::client::classify_response;
use reydenx::model::order::Order;
use reydenx::model::order::Parameters;
use reydenx::model::result::StandardResult;
use reydenx::orders::order_details_path;

fn req_str(v: &serde_json::Value, key: &str) -> String {
    String::from(v.get(key).unwrap().as_str().unwrap())
}

fn req_u32(v: &serde_json::Value, key: &str) -> u32 {
    v.get(key).unwrap().as_u64().unwrap() as u32
}

fn req_bool(v: &serde_json::Value, key: &str) -> bool {
    v.get(key).unwrap().as_bool().unwrap()
}

/// Decode the standard envelope around an order, the way a transport layer
/// would before handing the typed value to the library.
fn decode_order_envelope(body: &str) -> StandardResult<Order> {
    let v: serde_json::Value = serde_json::from_str(body).unwrap();
    let o = v.get("result").unwrap();
    let p = o.get("parameters").unwrap();
    let order = Order {
        id: req_u32(o, "id"),
        created_at: req_str(o, "created_at"),
        updated_at: req_str(o, "updated_at"),
        uuid: req_str(o, "uuid"),
        status: req_str(o, "status"),
        ordered_view_qty: req_u32(o, "ordered_view_qty"),
        price_per_view: o.get("price_per_view").unwrap().to_string(),
        is_autostart: req_bool(o, "is_autostart"),
        online_users_limit: req_u32(o, "online_users_limit"),
        platform: req_str(o, "platform"),
        content_type: req_str(o, "content_type"),
        parameters: Parameters {
            launch_mode: req_str(p, "launch_mode"),
            work_mode: req_str(p, "work_mode"),
            delay: req_bool(p, "delay"),
            delay_time: req_u32(p, "delay_time"),
            even_distribution: req_bool(p, "even_distribution"),
            even_distribution_time: req_u32(p, "even_distribution_time"),
        },
        statistics: None,
        content_classification_labels: None,
    };
    StandardResult {
        request_id: req_str(&v, "request_id"),
        cached: req_bool(&v, "cached"),
        cache_expires_at: None,
        cursor: v.get("cursor").and_then(|c| c.as_str()).map(String::from),
        result: order,
    }
}

#[test]
fn auth_then_order_detail() {
    let mut client = Client::new(String::from("EMAIL"), String::from("PASSWORD"));

    // The vendor's answer to the credentials exchange.
    match client.auth_step() {
        AuthStep::Exchange(q) => assert_eq!(q.url, "https://api.reyden-x.com/v1/token/"),
        AuthStep::Cached => panic!("a fresh client cannot use a cached token"),
    }
    client
        .apply_auth_response(
            200,
            "{\"access_token\":\"abc\",\"expires_in\":\"2099-01-01T00:00:00+00:00\"}",
        )
        .unwrap();
    assert!(client.is_authenticated());

    // The order-detail request the client would send.
    let plan = client.build_request(Method::Get, &order_details_path(12345), None);
    assert_eq!(plan.url, "https://api.reyden-x.com/v1/orders/12345/");
    assert_eq!(plan.bearer, "Bearer abc");
    assert!(plan.body.is_none());

    // The vendor's answer, classified and decoded.
    let body = "{\"request_id\":\"r1\",\"cached\":false,\"cache_expires_at\":null,\
                \"cursor\":null,\"result\":{\"id\":12345,\
                \"created_at\":\"2024-01-01T00:00:00+00:00\",\
                \"updated_at\":\"2024-01-02T00:00:00+00:00\",\"uuid\":\"u-1\",\
                \"status\":\"running\",\"ordered_view_qty\":1000,\"price_per_view\":0.5,\
                \"is_autostart\":true,\"online_users_limit\":100,\"platform\":\"twitch\",\
                \"content_type\":\"stream\",\"parameters\":{\"launch_mode\":\"auto\",\
                \"work_mode\":\"work\",\"delay\":false,\"delay_time\":0,\
                \"even_distribution\":false,\"even_distribution_time\":0},\
                \"statistics\":null,\"content_classification_labels\":null}}";
    let passed = classify_response(200, String::from(body)).unwrap();
    let envelope = decode_order_envelope(&passed);
    assert_eq!(envelope.request_id, "r1");
    assert!(!envelope.cached);
    assert_eq!(envelope.result.id, 12345);
    assert_eq!(envelope.result.status, "running");
    assert_eq!(envelope.result.platform, "twitch");
    // No cursor: no further pagination is needed.
    assert!(!envelope.has_next());

    // A second authentication is a no-op on the already-valid client.
    assert!(matches!(client.auth_step(), AuthStep::Cached));
    assert_eq!(client.get_token().access_token, "abc");
}

use reydenx::model::order::Identifiers;
use reydenx::model::order::KickPayload;
use reydenx::model::order::LaunchMode;
use reydenx::model::order::LaunchParams;
use reydenx::model::order::SmoothGain;
use reydenx::model::order::TwitchPayload;
use reydenx::model::order::YouTubePayload;

#[test]
fn launch_mode_names() {
    assert_eq!(LaunchMode::Auto.as_str(), "auto");
    assert_eq!(LaunchMode::Manual.as_str(), "manual");
    assert_eq!(LaunchMode::Delay.as_str(), "delay");
}

#[test]
fn delay_within_bounds_serializes() {
    let p = LaunchParams { mode: LaunchMode::Delay, delay_time: 15 };
    assert_eq!(p.to_json().unwrap(), "{\"delay_time\":15,\"mode\":\"delay\"}");
}

#[test]
fn delay_bounds_are_inclusive() {
    let p = LaunchParams { mode: LaunchMode::Delay, delay_time: 5 };
    assert_eq!(p.to_json().unwrap(), "{\"delay_time\":5,\"mode\":\"delay\"}");
    let p = LaunchParams { mode: LaunchMode::Delay, delay_time: 240 };
    assert_eq!(p.to_json().unwrap(), "{\"delay_time\":240,\"mode\":\"delay\"}");
}

#[test]
fn delay_outside_bounds_is_rejected() {
    for minutes in [0u8, 4, 241, 255] {
        let p = LaunchParams { mode: LaunchMode::Delay, delay_time: minutes };
        let e = p.to_json().unwrap_err();
        assert_eq!(e.message, "The number of minutes for delayed start should be from 5 to 240");
    }
}

#[test]
fn auto_and_manual_force_zero_delay() {
    let p = LaunchParams { mode: LaunchMode::Auto, delay_time: 99 };
    assert_eq!(p.to_json().unwrap(), "{\"delay_time\":0,\"mode\":\"auto\"}");
    let p = LaunchParams { mode: LaunchMode::Manual, delay_time: 240 };
    assert_eq!(p.to_json().unwrap(), "{\"delay_time\":0,\"mode\":\"manual\"}");
}

#[test]
fn twitch_payload_exact_json() {
    let p = TwitchPayload {
        price_id: 123,
        number_of_views: 1000,
        number_of_viewers: 100,
        launch_mode: String::from("auto"),
        smooth_gain: SmoothGain { enabled: false, minutes: 0 },
        delay_time: 0,
        twitch_id: 123456789,
    };
    assert_eq!(
        p.to_json(),
        "{\"price_id\":123,\"number_of_views\":1000,\"number_of_viewers\":100,\
         \"launch_mode\":\"auto\",\"smooth_gain\":{\"enabled\":false,\"minutes\":0},\
         \"delay_time\":0,\"twitch_id\":123456789}"
    );
}

#[test]
fn twitch_payload_parses_back() {
    let p = TwitchPayload {
        price_id: 7,
        number_of_views: 50,
        number_of_viewers: 5,
        launch_mode: String::from("delay"),
        smooth_gain: SmoothGain { enabled: true, minutes: 30 },
        delay_time: 10,
        twitch_id: 42,
    };
    let v: serde_json::Value = serde_json::from_str(&p.to_json()).unwrap();
    assert_eq!(v.get("price_id").unwrap().as_u64(), Some(7));
    assert_eq!(v.get("launch_mode").unwrap().as_str(), Some("delay"));
    assert_eq!(v.get("smooth_gain").unwrap().get("enabled").unwrap().as_bool(), Some(true));
    assert_eq!(v.get("smooth_gain").unwrap().get("minutes").unwrap().as_u64(), Some(30));
    assert_eq!(v.get("twitch_id").unwrap().as_u64(), Some(42));
}

#[test]
fn youtube_payload_exact_json() {
    let p = YouTubePayload {
        price_id: 1,
        number_of_views: 2,
        number_of_viewers: 3,
        launch_mode: String::from("manual"),
        smooth_gain: SmoothGain { enabled: true, minutes: 15 },
        delay_time: 4,
        channel_url: String::from("https://www.youtube.com/channel/UC123"),
    };
    assert_eq!(
        p.to_json(),
        "{\"price_id\":1,\"number_of_views\":2,\"number_of_viewers\":3,\
         \"launch_mode\":\"manual\",\"smooth_gain\":{\"enabled\":true,\"minutes\":15},\
         \"delay_time\":4,\"channel_url\":\"https://www.youtube.com/channel/UC123\"}"
    );
}

#[test]
fn kick_payload_escapes_channel_url() {
    let p = KickPayload {
        price_id: 1,
        number_of_views: 2,
        number_of_viewers: 3,
        launch_mode: String::from("auto"),
        smooth_gain: SmoothGain { enabled: false, minutes: 0 },
        delay_time: 0,
        channel_url: String::from("https://kick.com/a\"b\\c\nd"),
    };
    let text = p.to_json();
    // The escaper must make this valid JSON that round-trips the URL.
    let v: serde_json::Value = serde_json::from_str(&text).unwrap();
    assert_eq!(v.get("channel_url").unwrap().as_str(), Some("https://kick.com/a\"b\\c\nd"));
    assert!(text.contains("\\\"b\\\\c\\nd"));
}

#[test]
fn control_characters_get_unicode_escapes() {
    let p = Identifiers { identifiers: vec![] };
    assert_eq!(p.to_json(), "{\"identifiers\":[]}");
    let p = YouTubePayload {
        price_id: 0,
        number_of_views: 0,
        number_of_viewers: 0,
        launch_mode: String::from("a\u{01}b"),
        smooth_gain: SmoothGain { enabled: false, minutes: 0 },
        delay_time: 0,
        channel_url: String::from(""),
    };
    let text = p.to_json();
    assert!(text.contains("a\\u0001b"));
    let v: serde_json::Value = serde_json::from_str(&text).unwrap();
    assert_eq!(v.get("launch_mode").unwrap().as_str(), Some("a\u{01}b"));
}

#[test]
fn identifiers_json_lists_ids_in_order() {
    let p = Identifiers { identifiers: vec![1, 2, 3, 4, 5, 6, 7, 8, 9] };
    assert_eq!(p.to_json(), "{\"identifiers\":[1,2,3,4,5,6,7,8,9]}");
    let p = Identifiers { identifiers: vec![4294967295] };
    assert_eq!(p.to_json(), "{\"identifiers\":[4294967295]}");
}

use reydenx::action::add_views_path;
use reydenx::action::cancel_path;
use reydenx::action::change_increase_time_path;
use reydenx::action::change_launch_mode_path;
use reydenx::action::change_online_path;
use reydenx::action::disable_increase_of_viewers_path;
use reydenx::action::enable_increase_of_viewers_path;
use reydenx::action::run_path;
use reydenx::action::stop_path;
use reydenx::action::task_status_path;
use reydenx::model::platform::Platform;
use reydenx::orders::all_orders_path;
use reydenx::orders::clicks_stats_path;
use reydenx::orders::create_stream_path;
use reydenx::orders::multiple_clicks_stats_path;
use reydenx::orders::multiple_views_stats_path;
use reydenx::orders::online_stats_path;
use reydenx::orders::order_details_path;
use reydenx::orders::payments_path;
use reydenx::orders::sites_stats_path;
use reydenx::orders::views_stats_path;
use reydenx::prices::get_categories_path;
use reydenx::prices::get_prices_path;
use reydenx::traffic::countries_path;
use reydenx::traffic::languages_path;
use reydenx::user::account_path;
use reydenx::user::balance_path;

#[test]
fn action_paths() {
    assert_eq!(run_path(12345), "/orders/12345/action/run/");
    assert_eq!(stop_path(12345), "/orders/12345/action/stop/");
    assert_eq!(cancel_path(12345), "/orders/12345/action/cancel/");
    assert_eq!(change_online_path(12345, 50), "/orders/12345/action/change/online/50/");
    assert_eq!(
        change_increase_time_path(12345, 50),
        "/orders/12345/action/increase/change/50/"
    );
    assert_eq!(
        enable_increase_of_viewers_path(12345, 50),
        "/orders/12345/action/increase/on/50/"
    );
    assert_eq!(disable_increase_of_viewers_path(12345), "/orders/12345/action/increase/off/");
    assert_eq!(add_views_path(12345, 50), "/orders/12345/action/add/views/50/");
    assert_eq!(task_status_path(12345, "TASK_ID"), "/orders/12345/task/TASK_ID/status/");
    assert_eq!(change_launch_mode_path(12345), "/orders/12345/action/change/launch/");
}

#[test]
fn order_paths() {
    assert_eq!(all_orders_path(None), "/orders/");
    assert_eq!(all_orders_path(Some("opaque==")), "/orders/?cursor=opaque==");
    assert_eq!(order_details_path(12345), "/orders/12345/");
    assert_eq!(online_stats_path(12345), "/orders/12345/statistics/online/");
    assert_eq!(clicks_stats_path(12345), "/orders/12345/statistics/clicks/");
    assert_eq!(views_stats_path(12345), "/orders/12345/statistics/views/");
    assert_eq!(sites_stats_path(12345), "/orders/12345/statistics/sites/");
    assert_eq!(payments_path(12345, None), "/orders/12345/payments/");
    assert_eq!(payments_path(12345, Some("abc")), "/orders/12345/payments/?cursor=abc");
    assert_eq!(multiple_views_stats_path(), "/orders/multiple/views/");
    assert_eq!(multiple_clicks_stats_path(), "/orders/multiple/clicks/");
}

#[test]
fn numbers_render_in_full() {
    assert_eq!(order_details_path(0), "/orders/0/");
    assert_eq!(order_details_path(4294967295), "/orders/4294967295/");
    assert_eq!(order_details_path(1000000), "/orders/1000000/");
}

#[test]
fn creation_paths_use_platform_slugs() {
    assert_eq!(create_stream_path(Platform::Twitch), "/orders/create/twitch/stream/");
    assert_eq!(create_stream_path(Platform::YouTube), "/orders/create/youtube/stream/");
    assert_eq!(create_stream_path(Platform::GoodGame), "/orders/create/goodgame/stream/");
    assert_eq!(create_stream_path(Platform::Trovo), "/orders/create/trovo/stream/");
    assert_eq!(create_stream_path(Platform::VkPlay), "/orders/create/vkplay/stream/");
    assert_eq!(create_stream_path(Platform::Kick), "/orders/create/kick/stream/");
}

#[test]
fn price_traffic_and_user_paths() {
    assert_eq!(get_prices_path(Platform::Twitch), "/prices/twitch/");
    assert_eq!(get_categories_path(), "/price-categories/");
    assert_eq!(countries_path(), "/traffic/countries/");
    assert_eq!(languages_path(), "/traffic/languages/");
    assert_eq!(balance_path(), "/user/balance/");
    assert_eq!(account_path(), "/user/");
}

use ember_network_connect::network::NetworkCommand;
use ember_network_connect::server::{
    dispatch, get_timer_response, redirect_target, reset_dhcp_response, route_command, Route,
    REDIRECT_STATUS,
};
use ember_network_connect::text::decimal_string;

#[test]
fn foreign_host_is_redirected_to_gateway_root() {
    let target = redirect_target(&"example.com".to_string(), &"192.168.42.1".to_string());
    assert_eq!(target, Some("http://192.168.42.1/".to_string()));
    assert_eq!(REDIRECT_STATUS, 307);
}

#[test]
fn gateway_host_is_dispatched_normally() {
    let target = redirect_target(&"192.168.42.1".to_string(), &"192.168.42.1".to_string());
    assert_eq!(target, None);
}

#[test]
fn routes_match_method_and_path() {
    assert_eq!(dispatch(&"GET".to_string(), &"/get_timer".to_string()), Route::GetTimer);
    assert_eq!(dispatch(&"POST".to_string(), &"/reset_dhcp".to_string()), Route::ResetDhcp);
    // The method matters.
    assert_eq!(dispatch(&"POST".to_string(), &"/get_timer".to_string()), Route::Asset);
    assert_eq!(dispatch(&"GET".to_string(), &"/reset_dhcp".to_string()), Route::Asset);
    assert_eq!(dispatch(&"GET".to_string(), &"/".to_string()), Route::Asset);
    assert_eq!(dispatch(&"GET".to_string(), &"/css/site.css".to_string()), Route::Asset);
}

#[test]
fn get_timer_produces_exactly_one_activate() {
    // The timer endpoint forwards exactly one command, and it is Activate.
    let cmd = route_command(Route::GetTimer);
    assert_eq!(cmd, Some(NetworkCommand::Activate));
    // With the command delivered, the response is the countdown as decimal.
    let response = get_timer_response(true, 118);
    assert_eq!(response.status, 200);
    assert_eq!(response.body, "118");
}

#[test]
fn get_timer_fails_when_channel_is_gone() {
    let response = get_timer_response(false, 118);
    assert_eq!(response.status, 500);
    assert_eq!(response.body, "");
}

#[test]
fn reset_dhcp_forwards_reset_and_reports_send_result() {
    assert_eq!(route_command(Route::ResetDhcp), Some(NetworkCommand::Reset));
    assert_eq!(route_command(Route::Asset), None);
    assert_eq!(reset_dhcp_response(true).status, 200);
    assert_eq!(reset_dhcp_response(false).status, 500);
}

#[test]
fn decimal_rendering_is_exact() {
    assert_eq!(decimal_string(0), "0");
    assert_eq!(decimal_string(7), "7");
    assert_eq!(decimal_string(10), "10");
    assert_eq!(decimal_string(118), "118");
    assert_eq!(decimal_string(100000), "100000");
    assert_eq!(decimal_string(u64::MAX), "18446744073709551615");
}

use sounddeck::settings::{
    brightness, broker_url, DEFAULT_BRIGHTNESS, POLL_WAIT_MS, RECONNECT_MAX_SECS, RECONNECT_MIN_SECS,
};

#[test]
fn brightness_defaults_to_full() {
    assert_eq!(DEFAULT_BRIGHTNESS, 100);
    assert_eq!(brightness(None), 100);
}

#[test]
fn brightness_is_the_configured_percentage_up_to_full() {
    assert_eq!(brightness(Some(0)), 0);
    assert_eq!(brightness(Some(42)), 42);
    assert_eq!(brightness(Some(100)), 100);
    assert_eq!(brightness(Some(101)), 100);
    assert_eq!(brightness(Some(255)), 100);
}

#[test]
fn broker_address_names_the_host() {
    assert_eq!(broker_url("broker.local"), "mqtt://broker.local");
    assert_eq!(broker_url("10.0.0.2:1883"), "mqtt://10.0.0.2:1883");
    assert_eq!(broker_url(""), "mqtt://");
}

#[test]
fn poll_waits_a_quarter_second() {
    assert_eq!(POLL_WAIT_MS, 250);
}

#[test]
fn reconnect_waits_between_one_and_fifteen_seconds() {
    assert_eq!((RECONNECT_MIN_SECS, RECONNECT_MAX_SECS), (1, 15));
}

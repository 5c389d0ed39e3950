//! Settings of the run loop that the configuration may leave open.

use vstd::prelude::*;
use vstd::string::StringExecFns;

verus! {

/// Brightness in percent where the configuration gives none.
pub const DEFAULT_BRIGHTNESS: u8 = 100;

/// Highest brightness in percent.
pub const MAX_BRIGHTNESS: u8 = 100;

/// How long one poll of the panel waits, in milliseconds.
pub const POLL_WAIT_MS: u64 = 250;

/// Shortest wait before the broker connection is tried again, in seconds.
pub const RECONNECT_MIN_SECS: u64 = 1;

/// Longest wait before the broker connection is tried again, in seconds.
pub const RECONNECT_MAX_SECS: u64 = 15;

/// The brightness in percent that the configured value stands for.
pub open spec fn spec_brightness(configured: Option<u8>) -> u8 {
    match configured {
        Some(b) => if b <= MAX_BRIGHTNESS {
            b
        } else {
            MAX_BRIGHTNESS
        },
        None => DEFAULT_BRIGHTNESS,
    }
}

/// The brightness to set on the panel: the configured percentage, at most
/// 100, and full brightness where none is configured.
pub fn brightness(configured: Option<u8>) -> (b: u8)
    ensures
        b == spec_brightness(configured),
        b <= 100,
{
    match configured {
        Some(b) => if b <= MAX_BRIGHTNESS {
            b
        } else {
            MAX_BRIGHTNESS
        },
        None => DEFAULT_BRIGHTNESS,
    }
}

/// The address of the broker on `host`.
pub fn broker_url(host: &str) -> (url: String)
    ensures
        url@ == "mqtt://"@ + host@,
{
    String::from_str("mqtt://").concat(host)
}

} // verus!

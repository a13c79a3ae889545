//! Non-secret configuration shared by the whole firmware logic. The person
//! list must match the server's `PEOPLE` order and ids.
use vstd::prelude::*;

verus! {

/// Number of family members, one button and one NeoPixel each.
pub const NUM_PEOPLE: usize = 5;

/// The server-side id of each person, in button/LED order.
pub open spec fn person_name(idx: int) -> Seq<char> {
    if idx == 0 {
        "alice"@
    } else if idx == 1 {
        "bob"@
    } else if idx == 2 {
        "carol"@
    } else if idx == 3 {
        "dave"@
    } else {
        "eve"@
    }
}

/// The id the server knows person `idx` by.
pub fn person_id(idx: usize) -> (id: &'static str)
    requires
        idx < NUM_PEOPLE,
    ensures
        id@ == person_name(idx as int),
        vstd::string::is_ascii(id),
        1 <= id@.len() <= 5,
{
    proof {
        reveal_strlit("alice");
        reveal_strlit("bob");
        reveal_strlit("carol");
        reveal_strlit("dave");
        reveal_strlit("eve");
    }
    if idx == 0 {
        "alice"
    } else if idx == 1 {
        "bob"
    } else if idx == 2 {
        "carol"
    } else if idx == 3 {
        "dave"
    } else {
        "eve"
    }
}

/// Sample rate of the I2S link: 440 Hz x 100, so MIDI note 69 (A4) reads the
/// 100-sample wavetable exactly one sample per output sample.
pub const AUDIO_SAMPLE_RATE_HZ: u32 = 44_000;
/// Bit depth per I2S channel.
pub const AUDIO_BIT_DEPTH: u32 = 16;
/// Samples per DMA chunk of the shared output buffer.
pub const AUDIO_BUFFER_SAMPLES: usize = 256;
/// Length of the single-cycle sine wavetable.
pub const AUDIO_WAVETABLE_SAMPLES: usize = 100;
/// The unit note times and durations are counted in.
pub const AUDIO_TIME_UNIT_MS: u64 = 10;

pub const BUTTON_DEBOUNCE_MS: u64 = 50;
/// Holding a button this long cancels instead of pressing.
pub const BUTTON_LONG_PRESS_MS: u64 = 2000;
pub const OCCUPANCY_DEBOUNCE_MS: u64 = 2000;

/// The NeoPixel chain is redrawn at this fixed interval (10 fps).
pub const NEOPIXEL_FRAME_INTERVAL_MS: u64 = 100;

/// Half of the onboard LED's blink period while the link is watched (1 Hz).
pub const ONBOARD_LED_BLINK_HALF_PERIOD_MS: u64 = 500;
/// Length of each flash of the "join failed" double blink.
pub const ONBOARD_LED_FAIL_FLASH_MS: u64 = 100;
/// Dark gap between two double blinks after a failed join.
pub const ONBOARD_LED_FAIL_PATTERN_GAP_MS: u64 = 1600;

/// Upper bound for one whole HTTP request.
pub const SERVER_REQUEST_TIMEOUT_SECS: u64 = 10;
/// Wait before re-trying a POST that got no usable answer.
pub const SEND_RETRY_INTERVAL_SECS: u64 = 5;
/// How long after a successful join the link may still be down.
pub const WIFI_LINK_UP_GRACE_SECS: u64 = 10;
/// A join that has not finished after this long is abandoned.
pub const WIFI_JOIN_TIMEOUT_SECS: u64 = 20;
/// How often the LED state is reconciled with the server.
pub const LED_SYNC_INTERVAL_SECS: u64 = 30;

} // verus!

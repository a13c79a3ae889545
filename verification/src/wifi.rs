//! The decisions of the Wi-Fi connection manager: whether the network
//! counts as usable, when an association counts as lost, how long to back
//! off after a failed join, and what the onboard LED shows meanwhile.
use vstd::prelude::*;

use crate::config::{
    ONBOARD_LED_FAIL_FLASH_MS, ONBOARD_LED_FAIL_PATTERN_GAP_MS, WIFI_LINK_UP_GRACE_SECS,
};

verus! {

/// Shortest wait after a failed join.
pub const MIN_BACKOFF_MS: u64 = 1_000;
/// Longest wait after a failed join.
pub const MAX_BACKOFF_MS: u64 = 30_000;

/// A change of the published connection state.
#[derive(Clone, Copy, Debug, PartialEq, Eq, Structural)]
pub enum LinkChange {
    /// Went from not connected to connected: wake whoever waits for the
    /// network (the LED-state poll and the outbox sender).
    CameUp,
    /// Went from connected to not connected.
    WentDown,
    Unchanged,
}

/// The change from the published state `was` to `now`.
pub open spec fn link_change(was: bool, now: bool) -> LinkChange {
    if now && !was {
        LinkChange::CameUp
    } else if !now && was {
        LinkChange::WentDown
    } else {
        LinkChange::Unchanged
    }
}

/// Whether the network is usable right now: link up and DHCP done.
pub struct Link {
    connected: bool,
}

impl Link {
    /// Not connected.
    pub fn new() -> (l: Link)
        ensures
            !l.is_connected_spec(),
    {
        Link { connected: false }
    }

    pub closed spec fn is_connected_spec(&self) -> bool {
        self.connected
    }

    /// Whether the network is usable; nothing may be sent to the server
    /// while this is false.
    pub fn is_connected(&self) -> (c: bool)
        ensures
            c == self.is_connected_spec(),
    {
        self.connected
    }

    /// Publishes the current state and reports the change.
    pub fn set_connected(&mut self, now: bool) -> (change: LinkChange)
        ensures
            final(self).is_connected_spec() == now,
            change == link_change(old(self).is_connected_spec(), now),
    {
        let was = self.connected;
        self.connected = now;
        if now && !was {
            LinkChange::CameUp
        } else if !now && was {
            LinkChange::WentDown
        } else {
            LinkChange::Unchanged
        }
    }
}

/// Watches one established association.
pub struct LinkWatch {
    pub joined_at_ms: u64,
    pub seen_link_up: bool,
}

/// What one look at the link decides.
#[derive(Clone, Copy, Debug, PartialEq, Eq, Structural)]
pub struct LinkVerdict {
    /// Whether the network counts as usable now.
    pub connected: bool,
    /// Whether the association is lost and must be re-joined.
    pub lost: bool,
}

impl LinkWatch {
    /// Starts watching an association joined at `now_ms`.
    pub fn new(now_ms: u64) -> (w: LinkWatch)
        ensures
            w.joined_at_ms == now_ms,
            !w.seen_link_up,
    {
        LinkWatch { joined_at_ms: now_ms, seen_link_up: false }
    }

    /// Looks at the link once. `join` can return a moment before the link
    /// is reported up, so a link that is not up yet counts as lost only
    /// once it has been up, or once the grace period since the join has
    /// run out. Usable means link up and DHCP done.
    pub fn observe(&mut self, link_up: bool, config_up: bool, now_ms: u64) -> (v: LinkVerdict)
        requires
            old(self).joined_at_ms <= now_ms,
        ensures
            final(self).joined_at_ms == old(self).joined_at_ms,
            final(self).seen_link_up == (old(self).seen_link_up || link_up),
            v.connected == (link_up && config_up),
            v.lost == (!link_up && (final(self).seen_link_up || now_ms - old(self).joined_at_ms
                > WIFI_LINK_UP_GRACE_SECS * 1000)),
    {
        self.seen_link_up = self.seen_link_up || link_up;
        let elapsed: u64 = now_ms - self.joined_at_ms;
        let lost = !link_up && (self.seen_link_up || elapsed > WIFI_LINK_UP_GRACE_SECS * 1000);
        LinkVerdict { connected: link_up && config_up, lost }
    }
}

/// The wait before the next join attempt, doubling after every failure up
/// to `MAX_BACKOFF_MS` and back to `MIN_BACKOFF_MS` after a success.
pub struct JoinBackoff {
    backoff_ms: u64,
}

impl JoinBackoff {
    pub closed spec fn current(&self) -> u64 {
        self.backoff_ms
    }

    /// The shortest wait.
    pub fn new() -> (b: JoinBackoff)
        ensures
            b.current() == MIN_BACKOFF_MS,
    {
        JoinBackoff { backoff_ms: MIN_BACKOFF_MS }
    }

    /// A join succeeded: the next failure waits the shortest time again.
    pub fn joined(&mut self)
        ensures
            final(self).current() == MIN_BACKOFF_MS,
    {
        self.backoff_ms = MIN_BACKOFF_MS;
    }

    /// A join failed: returns how long to wait before the next attempt and
    /// doubles the wait for the failure after that, up to the maximum.
    pub fn failed(&mut self) -> (wait_ms: u64)
        requires
            MIN_BACKOFF_MS <= old(self).current() <= MAX_BACKOFF_MS,
        ensures
            wait_ms == old(self).current(),
            final(self).current() == if 2 * old(self).current() <= MAX_BACKOFF_MS {
                2 * old(self).current()
            } else {
                MAX_BACKOFF_MS as int
            },
            MIN_BACKOFF_MS <= final(self).current() <= MAX_BACKOFF_MS,
    {
        let wait_ms = self.backoff_ms;
        let doubled: u64 = self.backoff_ms * 2;
        self.backoff_ms = if doubled <= MAX_BACKOFF_MS {
            doubled
        } else {
            MAX_BACKOFF_MS
        };
        wait_ms
    }
}

/// Tracks the onboard LED's state so it can be toggled.
pub struct Blinker {
    pub on: bool,
}

impl Blinker {
    /// Lit, as while a join is in progress.
    pub fn new() -> (b: Blinker)
        ensures
            b.on,
    {
        Blinker { on: true }
    }

    /// Holds the LED on (for the duration of a join); returns the level to
    /// write.
    pub fn hold_on(&mut self) -> (level: bool)
        ensures
            final(self).on,
            level,
    {
        self.on = true;
        true
    }

    /// Toggles the LED (once per half blink period); returns the level to
    /// write.
    pub fn tick(&mut self) -> (level: bool)
        ensures
            final(self).on == !old(self).on,
            level == final(self).on,
    {
        self.on = !self.on;
        self.on
    }
}

/// Length of one "join failed" pattern: two flashes (on then off, twice),
/// then the dark gap.
pub open spec fn fail_pattern_period() -> int {
    4 * ONBOARD_LED_FAIL_FLASH_MS + ONBOARD_LED_FAIL_PATTERN_GAP_MS
}

/// Whether the onboard LED is lit `elapsed_ms` into the back-off after a
/// failed join: a short double flash, repeated after a dark gap.
pub open spec fn fail_pattern_lit(elapsed_ms: int) -> bool {
    let t = elapsed_ms % fail_pattern_period();
    t < ONBOARD_LED_FAIL_FLASH_MS || (2 * ONBOARD_LED_FAIL_FLASH_MS <= t < 3
        * ONBOARD_LED_FAIL_FLASH_MS)
}

/// The onboard LED level `elapsed_ms` into the back-off after a failed join.
pub fn fail_pattern_level(elapsed_ms: u64) -> (lit: bool)
    ensures
        lit == fail_pattern_lit(elapsed_ms as int),
{
    let period: u64 = 4 * ONBOARD_LED_FAIL_FLASH_MS + ONBOARD_LED_FAIL_PATTERN_GAP_MS;
    let t: u64 = elapsed_ms % period;
    t < ONBOARD_LED_FAIL_FLASH_MS || (2 * ONBOARD_LED_FAIL_FLASH_MS <= t && t < 3
        * ONBOARD_LED_FAIL_FLASH_MS)
}

/// The waits after consecutive failed joins go 1 s, 2 s, 4 s, 8 s, 16 s,
/// then stay at 30 s; they never leave the `[1 s, 30 s]` range.
pub open spec fn backoff_after(failures: nat) -> int
    decreases failures,
{
    if failures == 0 {
        MIN_BACKOFF_MS as int
    } else {
        let prev = backoff_after((failures - 1) as nat);
        if 2 * prev <= MAX_BACKOFF_MS {
            2 * prev
        } else {
            MAX_BACKOFF_MS as int
        }
    }
}

/// The back-off doubles from one second and settles at thirty.
pub proof fn law_backoff_sequence(n: nat)
    ensures
        MIN_BACKOFF_MS <= backoff_after(n) <= MAX_BACKOFF_MS,
        backoff_after(0) == 1_000,
        backoff_after(1) == 2_000,
        backoff_after(2) == 4_000,
        backoff_after(3) == 8_000,
        backoff_after(4) == 16_000,
        n >= 5 ==> backoff_after(n) == 30_000,
    decreases n,
{
    reveal_with_fuel(backoff_after, 6);
    if n > 0 {
        law_backoff_sequence((n - 1) as nat);
    }
}

/// The failure pattern is two 100 ms flashes in every two seconds, dark
/// otherwise, starting lit.
pub proof fn law_fail_pattern(t: int)
    requires
        t >= 0,
    ensures
        fail_pattern_period() == 2000,
        fail_pattern_lit(0),
        fail_pattern_lit(t + 2000) == fail_pattern_lit(t),
        (300 <= t % 2000) ==> !fail_pattern_lit(t),
{
    assert((t + 2000) % 2000 == t % 2000) by (nonlinear_arith);
}

/// The network users are woken exactly once per connection: reporting
/// "usable" again while already usable wakes nobody, and only a change
/// from not usable to usable does.
pub proof fn law_woken_once_per_connection(was: bool, now: bool)
    ensures
        link_change(false, true) == LinkChange::CameUp,
        link_change(true, true) == LinkChange::Unchanged,
        (link_change(was, now) == LinkChange::CameUp) <==> (now && !was),
        (link_change(was, now) == LinkChange::WentDown) <==> (!now && was),
{
}

/// Each failed join waits the next value of the back-off sequence.
pub proof fn law_failed_join_follows_sequence(before: u64, after: u64, n: nat)
    requires
        before == backoff_after(n),
        after == (if 2 * before <= MAX_BACKOFF_MS { 2 * before } else { MAX_BACKOFF_MS as int }),
    ensures
        after == backoff_after(n + 1),
{
}

} // verus!

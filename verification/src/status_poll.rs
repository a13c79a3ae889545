//! Reconciling the NeoPixels with the server's `GET /api/led-state`: the
//! answer is one character per person in person order, `1` if they pressed
//! today and `0` otherwise. A person whose press or cancel the server has
//! not acknowledged yet keeps the LED that action asked for, since the
//! server's answer cannot know about it yet.
use vstd::prelude::*;
use vstd::string::StringSliceAdditionalSpecFns;

use crate::config::NUM_PEOPLE;
use crate::text::{fill, url_bytes, url_from, Url, URL_CAPACITY};

verus! {

/// The character (ASCII `1`) that marks a person who pressed today.
pub const PRESSED_CHAR: u8 = 0x31;

/// The pressed flags a response body carries, or `None` when it is too
/// short to hold one character per person.
pub open spec fn parsed_led_state(body: Seq<u8>) -> Option<Seq<bool>> {
    if body.len() < NUM_PEOPLE {
        None
    } else {
        Some(Seq::new(NUM_PEOPLE as nat, |i: int| body[i] == PRESSED_CHAR))
    }
}

/// Reads the pressed flags from a `/api/led-state` response body: person
/// `i` has pressed when byte `i` is `1`. Bytes past the last person are
/// ignored.
pub fn parse_led_state(body: &[u8]) -> (r: Option<[bool; NUM_PEOPLE]>)
    ensures
        r is None <==> parsed_led_state(body@) is None,
        r matches Some(p) ==> p@ == parsed_led_state(body@).unwrap(),
{
    if body.len() < NUM_PEOPLE {
        return None;
    }
    let mut pressed = [false; NUM_PEOPLE];
    let mut i: usize = 0;
    while i < NUM_PEOPLE
        invariant
            i <= NUM_PEOPLE,
            body@.len() >= NUM_PEOPLE,
            forall|j: int| 0 <= j < i ==> pressed[j] == (body@[j] == PRESSED_CHAR),
        decreases NUM_PEOPLE - i,
    {
        pressed[i] = body[i] == PRESSED_CHAR;
        i = i + 1;
    }
    assert(pressed@ =~= parsed_led_state(body@).unwrap());
    Some(pressed)
}

/// What person `i`'s LED shows after a sync: the action still owed for
/// them, the later snapshot winning, or else the server's answer.
pub open spec fn reconciled(fetched: bool, before: Option<bool>, after: Option<bool>) -> bool {
    match after {
        Some(intent) => intent,
        None => match before {
            Some(intent) => intent,
            None => fetched,
        },
    }
}

/// Combines the server's answer with the actions still owed in the
/// snapshots of the outbox taken before and after the request.
pub fn reconcile(
    fetched: [bool; NUM_PEOPLE],
    pending_before: [Option<bool>; NUM_PEOPLE],
    pending_after: [Option<bool>; NUM_PEOPLE],
) -> (pressed: [bool; NUM_PEOPLE])
    ensures
        forall|i: int|
            0 <= i < NUM_PEOPLE ==> pressed[i] == reconciled(
                fetched[i],
                pending_before[i],
                pending_after[i],
            ),
{
    let mut pressed = fetched;
    let mut i: usize = 0;
    while i < NUM_PEOPLE
        invariant
            i <= NUM_PEOPLE,
            forall|j: int|
                0 <= j < i ==> pressed[j] == reconciled(fetched[j], pending_before[j], pending_after[j]),
            forall|j: int| i <= j < NUM_PEOPLE ==> pressed[j] == fetched[j],
        decreases NUM_PEOPLE - i,
    {
        let intent = match pending_after[i] {
            Some(v) => Some(v),
            None => pending_before[i],
        };
        if let Some(v) = intent {
            pressed[i] = v;
        }
        i = i + 1;
    }
    pressed
}

/// The URL polled for the LED state of the server at `base_url`.
pub fn led_state_url(base_url: &str) -> (u: Url)
    ensures
        url_bytes(u) == fill(
            Seq::empty(),
            seq![base_url.spec_bytes(), "/api/led-state".spec_bytes()],
            URL_CAPACITY as nat,
        ),
{
    let pieces: Vec<&str> = vec![base_url, "/api/led-state"];
    let u = url_from(&pieces);
    assert(pieces@.map_values(|p: &str| p.spec_bytes()) =~= seq![
        base_url.spec_bytes(),
        "/api/led-state".spec_bytes(),
    ]);
    u
}

/// A sync never wipes an action the server has not acknowledged: a press
/// made offline stays lit and a cancel stays dark, the more recent
/// snapshot winning; people with nothing owed show the server's answer.
pub proof fn law_sync_keeps_owed_actions(fetched: bool, before: Option<bool>, after: Option<bool>)
    ensures
        after matches Some(a) ==> reconciled(fetched, before, after) == a,
        after is None ==> (before matches Some(b) ==> reconciled(fetched, before, after) == b),
        after is None && before is None ==> reconciled(fetched, before, after) == fetched,
{
}

} // verus!

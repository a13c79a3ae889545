//! Debouncing decisions shared by the buttons and the occupancy sensor: a
//! level change counts only if the level is still changed once the debounce
//! window has passed; chatter that reverts within the window is discarded.
use vstd::prelude::*;

verus! {

/// A digital input level.
#[derive(Clone, Copy, Debug, PartialEq, Eq, Structural)]
pub enum Level {
    Low,
    High,
}

/// The outcome of one debounce window: the level read before the edge and
/// the level read once the window has passed. `Some(level)` is a confirmed
/// new stable level; `None` is chatter to discard (wait for the next edge).
pub fn settled(before: Level, after: Level) -> (r: Option<Level>)
    ensures
        before != after ==> r == Some(after),
        before == after ==> r is None,
{
    if before != after {
        Some(after)
    } else {
        None
    }
}

/// The light sensor reads low while the bath is occupied.
pub fn occupied_from(level: Level) -> (occupied: bool)
    ensures
        occupied == (level == Level::Low),
{
    level == Level::Low
}

} // verus!

//! Double-click detection: successive pointer-down events, each a row and a
//! monotonic timestamp in milliseconds, are classified as single or double.

use vstd::prelude::*;

verus! {

/// The double-click window in milliseconds: a second pointer-down on the
/// same row strictly less than this long after the first is a double click.
pub const DOUBLE_CLICK_WINDOW_MS: u64 = 300;

/// The last observed pointer-down: its row and its timestamp.
#[derive(Clone, Copy, PartialEq, Eq, Structural)]
pub struct ClickInfo {
    pub row: u16,
    pub time_ms: u64,
}

/// A pointer-down at `row` and time `now` completes a double click against
/// the stored state: a previous pointer-down exists, its row matches
/// exactly, time did not run backwards, and the elapsed time is below the
/// window.
pub open spec fn is_double(last: Option<ClickInfo>, row: u16, now: u64) -> bool {
    match last {
        Option::Some(c) => c.row == row && c.time_ms <= now && now - c.time_ms
            < DOUBLE_CLICK_WINDOW_MS,
        Option::None => false,
    }
}

/// The gesture state after a pointer-down.  A click that completed a double
/// click clears the state, so an immediately following third click starts a
/// fresh pair and is classified single, never as part of a triple-click
/// run; any other click is stored as the new potential first of a pair.
pub open spec fn gesture_after(last: Option<ClickInfo>, row: u16, now: u64) -> Option<ClickInfo> {
    if is_double(last, row, now) {
        Option::None
    } else {
        Option::Some(ClickInfo { row, time_ms: now })
    }
}

/// Law: no triple clicks.  A pointer-down that completed a double click
/// clears the stored pair, so whatever click follows it, at whatever row
/// and time, is classified single.
pub proof fn lemma_fresh_pair_after_double(
    last: Option<ClickInfo>,
    row: u16,
    now: u64,
    row2: u16,
    now2: u64,
)
    requires
        is_double(last, row, now),
    ensures
        !is_double(gesture_after(last, row, now), row2, now2),
{
}

/// Record a pointer-down event and classify it: the result is `true`
/// exactly for the second click of a double click.
pub fn on_pointer_down(last: &mut Option<ClickInfo>, row: u16, now: u64) -> (double: bool)
    ensures
        double == is_double(*old(last), row, now),
        *final(last) == gesture_after(*old(last), row, now),
{
    let double = match *last {
        Option::Some(c) => c.row == row && c.time_ms <= now && now - c.time_ms
            < DOUBLE_CLICK_WINDOW_MS,
        Option::None => false,
    };
    if double {
        *last = Option::None;
    } else {
        *last = Option::Some(ClickInfo { row, time_ms: now });
    }
    double
}

} // verus!

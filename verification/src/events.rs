//! Events carried over the application's channel, and the progress source.
//!
//! Progress is kept as a fixed-point ratio in basis points: `PROGRESS_SCALE`
//! units stand for a full bar. A `Progress` event may carry a raw value above
//! the scale; the state machine clamps it when the event is applied.

use vstd::prelude::*;

verus! {

/// Number of progress units that stand for a completely filled bar.
pub const PROGRESS_SCALE: u32 = 10000;

/// How many progress units the background source adds per tick
/// (one hundredth of the full bar).
pub const PROGRESS_STEP: u32 = 100;

/// The key that was pressed, as far as the application cares.
#[derive(Clone, Copy, Debug, PartialEq, Eq, Structural)]
pub enum KeyCode {
    /// A printable character key.
    Char(char),
    /// Any key the application does not react to.
    Other,
}

/// Whether a key event is a press, a repeat, or a release.
#[derive(Clone, Copy, Debug, PartialEq, Eq, Structural)]
pub enum KeyEventKind {
    Press,
    Repeat,
    Release,
}

/// One decoded terminal key event.
#[derive(Clone, Copy, Debug, PartialEq, Eq, Structural)]
pub struct KeyEvent {
    pub code: KeyCode,
    pub kind: KeyEventKind,
}

/// Everything the consumer loop can receive over the channel.
#[derive(Clone, Copy, Debug, PartialEq, Eq, Structural)]
pub enum CustomEvents {
    /// A key event from the input source.
    Input(KeyEvent),
    /// A progress snapshot, in progress units (possibly above the scale).
    Progress(u32),
}

/// Clamp a raw progress value to the unit interval.
pub open spec fn clamped(v: u32) -> u32 {
    if v > PROGRESS_SCALE {
        PROGRESS_SCALE
    } else {
        v
    }
}

/// One tick of the background progress source: advance by one step,
/// never past the full bar.
pub fn next_progress(current: u32) -> (next: u32)
    requires
        current <= PROGRESS_SCALE,
    ensures
        next == clamped((current + PROGRESS_STEP) as u32),
        next <= PROGRESS_SCALE,
        current <= next,
{
    if current + PROGRESS_STEP > PROGRESS_SCALE {
        PROGRESS_SCALE
    } else {
        current + PROGRESS_STEP
    }
}

} // verus!

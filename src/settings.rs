use vstd::prelude::*;

verus! {

/// Seconds between two nudges of the pointer when nothing else was asked for.
pub const DEFAULT_INTERVAL_SECS: u64 = 10;

/// The hotkey that brings the overlay to the pointer, as registered at start.
pub open spec fn default_hotkey() -> Seq<char> {
    "Ctrl+Alt+P"@
}

/// The one mutable record shared by the mover, the event handlers and the
/// commands.
///
/// Times are milliseconds on a monotonic clock whose origin the host picks.
#[derive(Clone, Debug)]
pub struct Settings {
    /// Seconds that must pass between two nudges.
    pub interval: u64,
    /// Whether the mover nudges the pointer when a nudge is due.
    pub should_running: bool,
    /// When the mover last became due (or first looked at the clock).
    pub last_time_move_mouse: Option<u64>,
    /// The hotkey currently registered for the overlay.
    pub hotkey: String,
}

/// Payload of a request to change the interval between nudges.
#[derive(Clone, Debug)]
pub struct MoveMouseIntervalChangePayload {
    pub interval: u64,
}

/// Payload of a request to change the overlay hotkey.
#[derive(Clone, Debug)]
pub struct FindMouseHotKeyChangePayload {
    pub hotkey: String,
}

impl Settings {
    /// The settings at start: a ten second interval, running, no time seen yet,
    /// and the default hotkey.
    pub fn new() -> (r: Settings)
        ensures
            r.interval == DEFAULT_INTERVAL_SECS,
            r.should_running,
            r.last_time_move_mouse.is_none(),
            r.hotkey@ == default_hotkey(),
    {
        Settings {
            interval: DEFAULT_INTERVAL_SECS,
            should_running: true,
            last_time_move_mouse: None,
            hotkey: "Ctrl+Alt+P".to_owned(),
        }
    }

    /// Takes the interval of an interval-change request; nothing else changes.
    pub fn apply_interval_change(&mut self, payload: MoveMouseIntervalChangePayload)
        ensures
            final(self).interval == payload.interval,
            final(self).should_running == old(self).should_running,
            final(self).last_time_move_mouse == old(self).last_time_move_mouse,
            final(self).hotkey == old(self).hotkey,
    {
        self.interval = payload.interval;
    }
}

} // verus!

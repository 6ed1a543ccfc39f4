use vstd::prelude::*;

use crate::settings::Settings;

verus! {

/// What the host does after one tick of the mover.
#[derive(Clone, Copy, Debug, PartialEq, Eq, Structural)]
pub enum MoverAction {
    /// Nothing is due.
    Wait,
    /// A nudge was due but the mover is paused; the wait starts over.
    Pause,
    /// Move the pointer by this displacement, relative to where it is.
    MoveMouse { dx: i32, dy: i32 },
}

/// Milliseconds from `last` to `now`; a clock read that goes backwards counts
/// as no time at all.
pub open spec fn elapsed_ms(last: u64, now: u64) -> int {
    if now >= last {
        now - last
    } else {
        0
    }
}

/// A nudge is due once strictly more than the interval has passed.
pub open spec fn is_due(last: u64, now: u64, interval_secs: u64) -> bool {
    elapsed_ms(last, now) > interval_secs * 1000
}

/// The time of the last nudge after a tick at `now`.
pub open spec fn tick_last(last: Option<u64>, now: u64, interval_secs: u64) -> Option<u64> {
    match last {
        None => Some(now),
        Some(t) => if is_due(t, now, interval_secs) {
            Some(now)
        } else {
            Some(t)
        },
    }
}

/// What a tick at `now` asks the host to do.
pub open spec fn tick_action(
    last: Option<u64>,
    now: u64,
    interval_secs: u64,
    running: bool,
) -> MoverAction {
    match last {
        None => MoverAction::Wait,
        Some(t) => if !is_due(t, now, interval_secs) {
            MoverAction::Wait
        } else if running {
            MoverAction::MoveMouse { dx: 1, dy: 1 }
        } else {
            MoverAction::Pause
        },
    }
}

/// One step of the idle mover, taken with the clock read at `now_ms`.
///
/// The first tick only records the time. After that, once more than the
/// interval has passed, the time is recorded again and the pointer is moved
/// one pixel right and down, unless the mover is paused.
pub fn tick(settings: &mut Settings, now_ms: u64) -> (r: MoverAction)
    ensures
        final(settings).last_time_move_mouse == tick_last(
            old(settings).last_time_move_mouse,
            now_ms,
            old(settings).interval,
        ),
        r == tick_action(
            old(settings).last_time_move_mouse,
            now_ms,
            old(settings).interval,
            old(settings).should_running,
        ),
        final(settings).interval == old(settings).interval,
        final(settings).should_running == old(settings).should_running,
        final(settings).hotkey == old(settings).hotkey,
{
    match settings.last_time_move_mouse {
        None => {
            settings.last_time_move_mouse = Some(now_ms);
            MoverAction::Wait
        },
        Some(last) => {
            let elapsed: u64 = if now_ms >= last {
                now_ms - last
            } else {
                0
            };
            let limit: u128 = settings.interval as u128 * 1000;
            if (elapsed as u128) > limit {
                settings.last_time_move_mouse = Some(now_ms);
                if settings.should_running {
                    MoverAction::MoveMouse { dx: 1, dy: 1 }
                } else {
                    MoverAction::Pause
                }
            } else {
                MoverAction::Wait
            }
        },
    }
}

/// A tick right after a tick at the same instant never asks for a nudge: a
/// nudge or a pause starts the wait over.
pub proof fn lemma_no_second_nudge_at_same_instant(
    last: Option<u64>,
    now: u64,
    interval_secs: u64,
    running: bool,
)
    ensures
        tick_action(tick_last(last, now, interval_secs), now, interval_secs, running)
            == MoverAction::Wait,
{
}

/// A paused mover never moves the pointer.
pub proof fn lemma_paused_never_moves(last: Option<u64>, now: u64, interval_secs: u64)
    ensures
        !(tick_action(last, now, interval_secs, false) is MoveMouse),
{
}

} // verus!

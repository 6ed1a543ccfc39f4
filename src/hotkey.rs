use vstd::prelude::*;

use crate::settings::{FindMouseHotKeyChangePayload, Settings};

verus! {

/// The registrations that a hotkey change asks of the host: drop the old
/// hotkey, then register the new one.
#[derive(Clone, Debug)]
pub struct HotkeyRebind {
    pub unregister: String,
    pub register: String,
}

/// Takes the hotkey of a hotkey-change request.
///
/// The new hotkey is recorded whether or not the host manages to register it,
/// so that the next change drops the one that was asked for last.
pub fn rebind_hotkey(
    settings: &mut Settings,
    payload: FindMouseHotKeyChangePayload,
) -> (r: HotkeyRebind)
    ensures
        r.unregister@ == old(settings).hotkey@,
        r.register@ == payload.hotkey@,
        final(settings).hotkey@ == payload.hotkey@,
        final(settings).interval == old(settings).interval,
        final(settings).should_running == old(settings).should_running,
        final(settings).last_time_move_mouse == old(settings).last_time_move_mouse,
{
    let register = payload.hotkey.clone();
    let unregister = settings.hotkey.clone();
    settings.hotkey = payload.hotkey;
    HotkeyRebind { unregister, register }
}

} // verus!

use vstd::prelude::*;

use crate::command::{is_main_window, main_label, UiCommand};
use crate::settings::Settings;

verus! {

/// The window events that the utility reacts to.
#[derive(Clone, Copy, Debug, PartialEq, Eq, Structural)]
pub enum WindowEvent {
    /// The user asked to close the window.
    CloseRequested,
    /// The window now has this size, in physical pixels.
    Resized { width: u32, height: u32 },
    /// Any other event.
    Other,
}

/// Whether a resize to this size means the window was minimized away.
pub open spec fn is_collapsed(width: u32, height: u32) -> bool {
    width == 0 && height == 0
}

/// The commands for `event` on the settings window.
pub open spec fn main_window_commands(event: WindowEvent) -> Seq<UiCommand> {
    match event {
        WindowEvent::CloseRequested => seq![UiCommand::Hide, UiCommand::Minimize, UiCommand::PreventClose],
        WindowEvent::Resized { width, height } => if is_collapsed(width, height) {
            seq![UiCommand::Hide]
        } else {
            Seq::empty()
        },
        WindowEvent::Other => Seq::empty(),
    }
}

/// Whether `event` on the settings window sends it to the tray.
pub open spec fn sends_to_tray(event: WindowEvent) -> bool {
    match event {
        WindowEvent::CloseRequested => true,
        WindowEvent::Resized { width, height } => is_collapsed(width, height),
        WindowEvent::Other => false,
    }
}

/// Routes an event of the window labelled `label`.
///
/// Closing the settings window hides and minimizes it instead, and a resize
/// to nothing hides it; either way the mover runs. Events of other windows,
/// and other events, change nothing.
pub fn handle_window_event(
    settings: &mut Settings,
    label: &str,
    event: &WindowEvent,
) -> (r: Vec<UiCommand>)
    ensures
        label@ == main_label() ==> r@ == main_window_commands(*event),
        label@ != main_label() ==> r@ == Seq::<UiCommand>::empty(),
        final(settings).should_running == if label@ == main_label() && sends_to_tray(*event) {
            true
        } else {
            old(settings).should_running
        },
        final(settings).interval == old(settings).interval,
        final(settings).last_time_move_mouse == old(settings).last_time_move_mouse,
        final(settings).hotkey == old(settings).hotkey,
{
    let mut r: Vec<UiCommand> = Vec::new();
    if !is_main_window(label) {
        return r;
    }
    match event {
        WindowEvent::CloseRequested => {
            r.push(UiCommand::Hide);
            r.push(UiCommand::Minimize);
            settings.should_running = true;
            r.push(UiCommand::PreventClose);
        },
        WindowEvent::Resized { width, height } => {
            if *width == 0 && *height == 0 {
                r.push(UiCommand::Hide);
                settings.should_running = true;
            }
        },
        WindowEvent::Other => {},
    }
    assert(r@ =~= main_window_commands(*event));
    r
}

} // verus!

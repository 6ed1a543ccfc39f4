use vstd::prelude::*;

use crate::command::UiCommand;
use crate::settings::Settings;

verus! {

/// What the host knows of the settings window when the tray icon is clicked.
#[derive(Clone, Copy, Debug, PartialEq, Eq, Structural)]
pub struct WindowState {
    pub visible: bool,
    pub minimized: bool,
}

/// The tray events that the utility reacts to.
#[derive(Clone, Debug)]
pub enum TrayEvent {
    /// A left click on the icon, with the settings window as it was then.
    LeftClick { window: WindowState },
    /// A click on the tray menu entry with this id.
    MenuItemClick { id: String },
    /// Any other event.
    Other,
}

/// The id of the tray menu entry that quits.
pub open spec fn quit_id() -> Seq<char> {
    "Quit"@
}

/// The steps that toggle the settings window: a visible one goes away
/// (minimized first unless it already is), a hidden one comes back (restored
/// first if minimized).
pub open spec fn toggle_commands(window: WindowState) -> Seq<UiCommand> {
    if window.visible {
        if window.minimized {
            seq![UiCommand::Hide]
        } else {
            seq![UiCommand::Minimize, UiCommand::Hide]
        }
    } else {
        if window.minimized {
            seq![UiCommand::Unminimize, UiCommand::Show]
        } else {
            seq![UiCommand::Show]
        }
    }
}

/// The commands for a tray event. None of them touches the tray menu, so its
/// "Quit" entry stays offered after every click.
pub open spec fn tray_commands(event: TrayEvent) -> Seq<UiCommand> {
    match event {
        TrayEvent::LeftClick { window } => toggle_commands(window),
        TrayEvent::MenuItemClick { id } => if id@ == quit_id() {
            seq![UiCommand::Exit { code: 0 }]
        } else {
            Seq::empty()
        },
        TrayEvent::Other => Seq::empty(),
    }
}

/// Routes a tray event.
///
/// A left click flips whether the mover runs and toggles the settings window;
/// the tray menu is left as it is. The menu entry "Quit" ends the application.
pub fn handle_tray_event(settings: &mut Settings, event: &TrayEvent) -> (r: Vec<UiCommand>)
    ensures
        r@ == tray_commands(*event),
        final(settings).should_running == if event is LeftClick {
            !old(settings).should_running
        } else {
            old(settings).should_running
        },
        final(settings).interval == old(settings).interval,
        final(settings).last_time_move_mouse == old(settings).last_time_move_mouse,
        final(settings).hotkey == old(settings).hotkey,
{
    let mut r: Vec<UiCommand> = Vec::new();
    match event {
        TrayEvent::LeftClick { window } => {
            settings.should_running = !settings.should_running;
            if window.visible {
                if !window.minimized {
                    r.push(UiCommand::Minimize);
                }
                r.push(UiCommand::Hide);
            } else {
                if window.minimized {
                    r.push(UiCommand::Unminimize);
                }
                r.push(UiCommand::Show);
            }
        },
        TrayEvent::MenuItemClick { id } => {
            if id.clone() == "Quit".to_owned() {
                r.push(UiCommand::Exit { code: 0 });
            }
        },
        TrayEvent::Other => {},
    }
    assert(r@ =~= tray_commands(*event));
    r
}

/// A click on the tray icon ends with the settings window hidden if it was
/// visible, and shown if it was not.
pub proof fn lemma_click_flips_visibility(window: WindowState)
    ensures
        tray_commands(TrayEvent::LeftClick { window }).last() == if window.visible {
            UiCommand::Hide
        } else {
            UiCommand::Show
        },
{
}

} // verus!

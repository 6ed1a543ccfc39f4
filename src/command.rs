use vstd::prelude::*;

verus! {

/// A step that an event handler asks the host to carry out, in order.
#[derive(Clone, Copy, Debug, PartialEq, Eq, Structural)]
pub enum UiCommand {
    /// Hide the main window.
    Hide,
    /// Minimize the main window.
    Minimize,
    /// Restore the main window from minimized.
    Unminimize,
    /// Show the main window.
    Show,
    /// Keep the window open although closing it was requested.
    PreventClose,
    /// End the application with this exit code.
    Exit { code: i32 },
}

/// The label of the settings window, the only one whose events are handled.
pub open spec fn main_label() -> Seq<char> {
    "main"@
}

/// Whether `label` names the settings window.
pub fn is_main_window(label: &str) -> (r: bool)
    ensures
        r == (label@ == main_label()),
{
    label.to_owned() == "main".to_owned()
}

} // verus!

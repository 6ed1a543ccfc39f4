//! Decision logic of a tray utility that keeps a desktop session awake by
//! nudging the mouse pointer, and that can bring a small overlay window to the
//! pointer on a hotkey.
//!
//! Every function here works on plain values: the host application reads the
//! clock, the pointer and the window state, hands them in, and carries out the
//! commands that come back.

pub mod settings;
pub mod mover;
pub mod command;
pub mod window;
pub mod tray;
pub mod hotkey;
pub mod locate;

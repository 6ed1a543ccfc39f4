use stay_active::command::{is_main_window, UiCommand};
use stay_active::hotkey::rebind_hotkey;
use stay_active::settings::{FindMouseHotKeyChangePayload, Settings};
use stay_active::tray::{handle_tray_event, TrayEvent, WindowState};
use stay_active::window::{handle_window_event, WindowEvent};

#[test]
fn main_label_is_recognised() {
    assert!(is_main_window("main"));
    assert!(!is_main_window("mouse_position"));
    assert!(!is_main_window("Main"));
    assert!(!is_main_window(""));
}

#[test]
fn close_of_main_window_hides_to_tray() {
    let mut s = Settings::new();
    s.should_running = false;
    let r = handle_window_event(&mut s, "main", &WindowEvent::CloseRequested);
    assert_eq!(r, vec![UiCommand::Hide, UiCommand::Minimize, UiCommand::PreventClose]);
    assert!(s.should_running);
}

#[test]
fn close_of_other_window_is_left_alone() {
    let mut s = Settings::new();
    s.should_running = false;
    let r = handle_window_event(&mut s, "mouse_position", &WindowEvent::CloseRequested);
    assert!(r.is_empty());
    assert!(!s.should_running);
}

#[test]
fn resize_to_nothing_hides() {
    let mut s = Settings::new();
    s.should_running = false;
    let r = handle_window_event(&mut s, "main", &WindowEvent::Resized { width: 0, height: 0 });
    assert_eq!(r, vec![UiCommand::Hide]);
    assert!(s.should_running);
}

#[test]
fn ordinary_resize_changes_nothing() {
    let mut s = Settings::new();
    s.should_running = false;
    let r = handle_window_event(&mut s, "main", &WindowEvent::Resized { width: 0, height: 30 });
    assert!(r.is_empty());
    assert!(!s.should_running);
    let r = handle_window_event(&mut s, "main", &WindowEvent::Other);
    assert!(r.is_empty());
}

#[test]
fn click_hides_visible_window() {
    let mut s = Settings::new();
    let w = WindowState { visible: true, minimized: false };
    let r = handle_tray_event(&mut s, &TrayEvent::LeftClick { window: w });
    assert_eq!(r, vec![UiCommand::Minimize, UiCommand::Hide]);
    assert!(!s.should_running);
    let w = WindowState { visible: true, minimized: true };
    let r = handle_tray_event(&mut s, &TrayEvent::LeftClick { window: w });
    assert_eq!(r, vec![UiCommand::Hide]);
    assert!(s.should_running);
}

#[test]
fn click_shows_hidden_window() {
    let mut s = Settings::new();
    let w = WindowState { visible: false, minimized: true };
    let r = handle_tray_event(&mut s, &TrayEvent::LeftClick { window: w });
    assert_eq!(r, vec![UiCommand::Unminimize, UiCommand::Show]);
    let w = WindowState { visible: false, minimized: false };
    let r = handle_tray_event(&mut s, &TrayEvent::LeftClick { window: w });
    assert_eq!(r, vec![UiCommand::Show]);
}

#[test]
fn quit_entry_exits() {
    let mut s = Settings::new();
    let r = handle_tray_event(&mut s, &TrayEvent::MenuItemClick { id: "Quit".to_string() });
    assert_eq!(r, vec![UiCommand::Exit { code: 0 }]);
    assert!(s.should_running);
    let r = handle_tray_event(&mut s, &TrayEvent::MenuItemClick { id: "Settings".to_string() });
    assert!(r.is_empty());
    let r = handle_tray_event(&mut s, &TrayEvent::Other);
    assert!(r.is_empty());
}

#[test]
fn hotkey_change_swaps_registrations() {
    let mut s = Settings::new();
    let r = rebind_hotkey(&mut s, FindMouseHotKeyChangePayload { hotkey: "Ctrl+Shift+M".to_string() });
    assert_eq!(r.unregister, "Ctrl+Alt+P");
    assert_eq!(r.register, "Ctrl+Shift+M");
    assert_eq!(s.hotkey, "Ctrl+Shift+M");
    let r = rebind_hotkey(&mut s, FindMouseHotKeyChangePayload { hotkey: "F9".to_string() });
    assert_eq!(r.unregister, "Ctrl+Shift+M");
    assert_eq!(r.register, "F9");
    assert_eq!(s.interval, 10);
}

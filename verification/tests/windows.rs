use cpu_monitor::cycle::dispatch_tray_click;
use cpu_monitor::cycle::TrayClick;
use cpu_monitor::cycle::TrayCommand;
use cpu_monitor::lifecycle::WindowAction;
use cpu_monitor::lifecycle::WindowId;
use cpu_monitor::lifecycle::WindowRegistry;

#[test]
fn toggle_creates_then_hides_then_reshows() {
    let mut reg = WindowRegistry::new();
    assert!(!reg.is_created(WindowId::TrayPopup));

    let a1 = reg.toggle(WindowId::TrayPopup, 100, 32);
    assert_eq!(a1, WindowAction::Create { x: 100, y: 32, focus: true });
    assert!(reg.is_created(WindowId::TrayPopup));
    assert!(reg.visible(WindowId::TrayPopup));

    let a2 = reg.toggle(WindowId::TrayPopup, 100, 32);
    assert_eq!(a2, WindowAction::Hide);
    assert!(reg.is_created(WindowId::TrayPopup));
    assert!(!reg.visible(WindowId::TrayPopup));

    let a3 = reg.toggle(WindowId::TrayPopup, 200, 32);
    assert_eq!(a3, WindowAction::Show { x: 200, y: 32, focus: true });
    assert!(reg.visible(WindowId::TrayPopup));
}

#[test]
fn toggling_twice_restores_visibility() {
    let mut reg = WindowRegistry::new();
    reg.toggle(WindowId::TrayPopup, 10, 20);
    assert!(reg.visible(WindowId::TrayPopup));
    reg.toggle(WindowId::TrayPopup, 10, 20);
    reg.toggle(WindowId::TrayPopup, 10, 20);
    assert!(reg.visible(WindowId::TrayPopup));
}

#[test]
fn the_alert_window_never_takes_focus() {
    let mut reg = WindowRegistry::new();
    let a = reg.show_if_hidden(WindowId::HighCpuAlert, 1492, 42);
    assert_eq!(a, WindowAction::Create { x: 1492, y: 42, focus: false });
}

#[test]
fn show_if_hidden_is_idempotent() {
    let mut reg = WindowRegistry::new();
    reg.show_if_hidden(WindowId::HighCpuAlert, 1492, 42);
    let before = reg;
    let a = reg.show_if_hidden(WindowId::HighCpuAlert, 7, 7);
    assert_eq!(a, WindowAction::NoAction);
    assert_eq!(reg, before);
}

#[test]
fn show_if_hidden_moves_a_hidden_window() {
    let mut reg = WindowRegistry::new();
    reg.show_if_hidden(WindowId::HighCpuAlert, 1492, 42);
    reg.hide_window(WindowId::HighCpuAlert);
    let a = reg.show_if_hidden(WindowId::HighCpuAlert, 700, 42);
    assert_eq!(a, WindowAction::Show { x: 700, y: 42, focus: false });
    assert!(reg.visible(WindowId::HighCpuAlert));
}

#[test]
fn hide_is_idempotent() {
    let mut reg = WindowRegistry::new();
    reg.toggle(WindowId::TrayPopup, 10, 20);
    let a1 = reg.hide_window(WindowId::TrayPopup);
    assert_eq!(a1, WindowAction::Hide);
    let before = reg;
    let a2 = reg.hide_window(WindowId::TrayPopup);
    assert_eq!(a2, WindowAction::NoAction);
    assert_eq!(reg, before);
}

#[test]
fn hiding_an_absent_window_does_nothing() {
    let mut reg = WindowRegistry::new();
    let a = reg.hide_window(WindowId::HighCpuAlert);
    assert_eq!(a, WindowAction::NoAction);
    assert!(!reg.is_created(WindowId::HighCpuAlert));
}

#[test]
fn the_two_windows_are_independent() {
    let mut reg = WindowRegistry::new();
    reg.toggle(WindowId::TrayPopup, 10, 20);
    reg.show_if_hidden(WindowId::HighCpuAlert, 30, 40);
    reg.hide_window(WindowId::TrayPopup);
    assert!(!reg.visible(WindowId::TrayPopup));
    assert!(reg.visible(WindowId::HighCpuAlert));
}

#[test]
fn tray_clicks_map_to_their_commands() {
    assert_eq!(dispatch_tray_click(TrayClick::LeftUp), TrayCommand::TogglePopup);
    assert_eq!(dispatch_tray_click(TrayClick::RightUp), TrayCommand::ShowMainWindow);
    assert_eq!(dispatch_tray_click(TrayClick::LeftDouble), TrayCommand::ExitApp);
    assert_eq!(dispatch_tray_click(TrayClick::Other), TrayCommand::Ignore);
}

//! Orchestration of one sampling cycle and of the user-facing window
//! commands.
//!
//! The periodic task hands [`sampling_cycle`] the raw process table and the
//! current settings; it ranks the table, renders title and tooltip, steps
//! the alert machine and updates the window registry, returning the
//! windowing work left to perform.  The tray-click and alert commands live
//! here as well, as pure decisions over the same registry.

use vstd::prelude::*;
use crate::alert::AlertAction;
use crate::alert::AlertState;
use crate::alert::alert_step;
use crate::alert::spec_alert_step;
use crate::geometry::MAX_COORD;
use crate::geometry::POPUP_WIDTH;
use crate::geometry::TRAY_POPUP_HEIGHT;
use crate::geometry::TRAY_POPUP_INITIAL_HEIGHT;
use crate::geometry::alert_position;
use crate::geometry::alert_y_px;
use crate::geometry::place;
use crate::geometry::place_x_px;
use crate::geometry::place_y_px;
use crate::lifecycle::WindowAction;
use crate::lifecycle::WindowId;
use crate::lifecycle::WindowRegistry;
use crate::lifecycle::spec_hide;
use crate::lifecycle::spec_show_if_hidden;
use crate::lifecycle::spec_toggle;
use crate::process::ProcessInfo;
use crate::process::rank;
use crate::process::snapshot_len;
use crate::process::sorted_desc;
use crate::render::render;
use crate::render::title_chars;
use crate::render::tooltip_chars;
use crate::settings::AppSettings;

verus! {

/// How the user interacted with the tray icon.
#[derive(Clone, Copy, Debug, PartialEq, Eq, Structural)]
pub enum TrayClick {
    /// Left button released.
    LeftUp,
    /// Right button released.
    RightUp,
    /// Left button double-clicked.
    LeftDouble,
    /// Anything else.
    Other,
}

/// What a tray interaction asks the application to do.
#[derive(Clone, Copy, Debug, PartialEq, Eq, Structural)]
pub enum TrayCommand {
    /// Toggle the tray popup.
    TogglePopup,
    /// Show and focus the main window.
    ShowMainWindow,
    /// Exit the application.
    ExitApp,
    /// Nothing.
    Ignore,
}

/// The tray-icon policy: left click toggles the popup, right click brings
/// the main window up, a double left click exits, anything else is ignored.
pub open spec fn spec_dispatch_tray_click(click: TrayClick) -> TrayCommand {
    match click {
        TrayClick::LeftUp => TrayCommand::TogglePopup,
        TrayClick::RightUp => TrayCommand::ShowMainWindow,
        TrayClick::LeftDouble => TrayCommand::ExitApp,
        TrayClick::Other => TrayCommand::Ignore,
    }
}

/// Maps a tray interaction to the command to run; see
/// [`spec_dispatch_tray_click`].
pub fn dispatch_tray_click(click: TrayClick) -> (c: TrayCommand)
    ensures
        c == spec_dispatch_tray_click(click),
{
    match click {
        TrayClick::LeftUp => TrayCommand::TogglePopup,
        TrayClick::RightUp => TrayCommand::ShowMainWindow,
        TrayClick::LeftDouble => TrayCommand::ExitApp,
        TrayClick::Other => TrayCommand::Ignore,
    }
}

/// Toggles the tray popup at a freshly computed position.
///
/// The popup is created at its initial size the first time; re-shows use
/// the full popup height.  Hiding ignores the position.
pub fn toggle_tray_popup(
    windows: &mut WindowRegistry,
    screen_w: i64,
    screen_h: i64,
    anchor: Option<(i64, i64)>,
) -> (a: WindowAction)
    requires
        old(windows).wf(),
        0 <= screen_w <= MAX_COORD,
        0 <= screen_h <= MAX_COORD,
        anchor matches Some(p) ==> -MAX_COORD <= p.0 <= MAX_COORD,
    ensures
        ({
            let old_w = old(windows).get(WindowId::TrayPopup);
            let h = if old_w.exists {
                TRAY_POPUP_HEIGHT
            } else {
                TRAY_POPUP_INITIAL_HEIGHT
            };
            let x = place_x_px(screen_w as int, POPUP_WIDTH as int, anchor);
            let y = place_y_px(screen_h as int, h as int);
            &&& *final(windows) == old(windows).with_window(
                WindowId::TrayPopup,
                spec_toggle(old_w, x, y, true).0,
            )
            &&& a == spec_toggle(old_w, x, y, true).1
        }),
        final(windows).wf(),
{
    let h = if windows.is_created(WindowId::TrayPopup) {
        TRAY_POPUP_HEIGHT
    } else {
        TRAY_POPUP_INITIAL_HEIGHT
    };
    let (x, y) = place(screen_w, screen_h, POPUP_WIDTH, h, anchor);
    windows.toggle(WindowId::TrayPopup, x, y)
}

/// Brings the alert popup up, unless the user has disabled it.
///
/// With the popup disabled in the settings nothing happens at all; with it
/// enabled the alert window is created or re-shown (never focused) at a
/// freshly computed position, and left alone if already visible.
pub fn show_high_cpu_alert_step(
    settings: &AppSettings,
    windows: &mut WindowRegistry,
    screen_w: i64,
    screen_h: i64,
    anchor: Option<(i64, i64)>,
) -> (a: WindowAction)
    requires
        old(windows).wf(),
        0 <= screen_w <= MAX_COORD,
        0 <= screen_h <= MAX_COORD,
        anchor matches Some(p) ==> -MAX_COORD <= p.0 <= MAX_COORD,
    ensures
        !settings.enable_high_cpu_popup ==> *final(windows) == *old(windows) && a
            == WindowAction::NoAction,
        settings.enable_high_cpu_popup ==> ({
            let old_w = old(windows).get(WindowId::HighCpuAlert);
            let x = place_x_px(screen_w as int, POPUP_WIDTH as int, anchor);
            let y = alert_y_px(screen_h as int);
            &&& *final(windows) == old(windows).with_window(
                WindowId::HighCpuAlert,
                spec_show_if_hidden(old_w, x, y, false).0,
            )
            &&& a == spec_show_if_hidden(old_w, x, y, false).1
        }),
        final(windows).wf(),
{
    if !settings.enable_high_cpu_popup {
        return WindowAction::NoAction;
    }
    let (x, y) = alert_position(screen_w, screen_h, anchor);
    windows.show_if_hidden(WindowId::HighCpuAlert, x, y)
}

/// Hides the alert popup if it is up.
pub fn hide_high_cpu_alert_step(windows: &mut WindowRegistry) -> (a: WindowAction)
    requires
        old(windows).wf(),
    ensures
        *final(windows) == old(windows).with_window(
            WindowId::HighCpuAlert,
            spec_hide(old(windows).get(WindowId::HighCpuAlert)).0,
        ),
        a == spec_hide(old(windows).get(WindowId::HighCpuAlert)).1,
        final(windows).wf(),
{
    windows.hide_window(WindowId::HighCpuAlert)
}

/// Everything one sampling cycle publishes.
pub struct CycleOutput {
    /// The ranked snapshot, busiest first, at most ten entries.
    pub snapshot: Vec<ProcessInfo>,
    /// The tray title under the current settings.
    pub title: String,
    /// The tray tooltip.
    pub tooltip: String,
    /// The alert machine's state after this cycle.
    pub alert_state: AlertState,
    /// The windowing work the cycle asks for (alert window only).
    pub window_action: WindowAction,
}

/// One cycle of the periodic sampling task.
///
/// Ranks the process table, renders title and tooltip from the snapshot and
/// the settings, steps the alert machine with the top entry's CPU usage,
/// and applies the resulting show or hide to the alert window in the
/// registry.  The tray popup is untouched; the returned action is what the
/// windowing layer still has to carry out.
pub fn sampling_cycle(
    table: Vec<ProcessInfo>,
    settings: &AppSettings,
    alert_state: AlertState,
    windows: &mut WindowRegistry,
    screen_w: i64,
    screen_h: i64,
    anchor: Option<(i64, i64)>,
    interval: u32,
) -> (out: CycleOutput)
    requires
        old(windows).wf(),
        0 <= screen_w <= MAX_COORD,
        0 <= screen_h <= MAX_COORD,
        anchor matches Some(p) ==> -MAX_COORD <= p.0 <= MAX_COORD,
    ensures
        out.snapshot@.len() == snapshot_len(table@.len()),
        sorted_desc(out.snapshot@),
        exists|s: Seq<ProcessInfo>|
            (#[trigger] s.to_multiset()) == table@.to_multiset() && sorted_desc(s)
                && out.snapshot@ == s.take(snapshot_len(table@.len()) as int),
        out.title@ == title_chars(out.snapshot@, *settings),
        out.tooltip@ == tooltip_chars(out.snapshot@),
        ({
            let top = if out.snapshot@.len() > 0 {
                Some(out.snapshot@[0].cpu_usage)
            } else {
                None::<u32>
            };
            let step = spec_alert_step(
                alert_state,
                top,
                settings.high_cpu_threshold,
                settings.high_cpu_duration,
                interval,
                settings.enable_high_cpu_popup,
            );
            let old_w = old(windows).get(WindowId::HighCpuAlert);
            let x = place_x_px(screen_w as int, POPUP_WIDTH as int, anchor);
            let y = alert_y_px(screen_h as int);
            &&& out.alert_state == step.0
            &&& (step.1 is ShowAlert ==> *final(windows) == old(windows).with_window(
                WindowId::HighCpuAlert,
                spec_show_if_hidden(old_w, x, y, false).0,
            ) && out.window_action == spec_show_if_hidden(old_w, x, y, false).1)
            &&& (step.1 is HideAlert ==> *final(windows) == old(windows).with_window(
                WindowId::HighCpuAlert,
                spec_hide(old_w).0,
            ) && out.window_action == spec_hide(old_w).1)
            &&& (step.1 is NoChange ==> *final(windows) == *old(windows) && out.window_action
                == WindowAction::NoAction)
        }),
        final(windows).tray_popup == old(windows).tray_popup,
        final(windows).wf(),
{
    let snapshot = rank(table);
    let r = render(&snapshot, settings);
    let top: Option<u32> = if snapshot.len() > 0 {
        Some(snapshot[0].cpu_usage)
    } else {
        None
    };
    let stepped = alert_step(
        alert_state,
        top,
        settings.high_cpu_threshold,
        settings.high_cpu_duration,
        interval,
        settings.enable_high_cpu_popup,
    );
    let window_action = match stepped.1 {
        AlertAction::ShowAlert => {
            let (x, y) = alert_position(screen_w, screen_h, anchor);
            windows.show_if_hidden(WindowId::HighCpuAlert, x, y)
        },
        AlertAction::HideAlert => windows.hide_window(WindowId::HighCpuAlert),
        AlertAction::NoChange => WindowAction::NoAction,
    };
    CycleOutput {
        snapshot,
        title: r.0,
        tooltip: r.1,
        alert_state: stepped.0,
        window_action,
    }
}

} // verus!

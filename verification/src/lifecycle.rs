//! Lifecycle of the two singleton popup windows.
//!
//! The registry is the single authority over whether the tray popup and the
//! high-CPU alert window exist and are visible.  Its operations decide what
//! has to happen — create, move and show, or hide — and hand that decision
//! back as a [`WindowAction`] for the windowing layer to carry out; windows
//! are created once and then only hidden and re-shown, never destroyed.

use vstd::prelude::*;

verus! {

/// The two singleton popup windows.
#[derive(Clone, Copy, Debug, PartialEq, Eq, Structural)]
pub enum WindowId {
    /// The panel toggled by the primary tray interaction.
    TrayPopup,
    /// The advisory sustained-high-CPU popup.
    HighCpuAlert,
}

/// What the registry believes about one window.
#[derive(Clone, Copy, Debug, PartialEq, Eq, Structural)]
pub struct WindowState {
    /// Whether the window has ever been created.
    pub exists: bool,
    /// Whether the window is currently shown.
    pub visible: bool,
    /// Last position the window was placed at.
    pub x: i64,
    /// Last position the window was placed at.
    pub y: i64,
}

/// The windowing work a registry operation asks its caller to perform.
#[derive(Clone, Copy, Debug, PartialEq, Eq, Structural)]
pub enum WindowAction {
    /// Create the window at the position and show it; focus it when asked.
    Create { x: i64, y: i64, focus: bool },
    /// Move the existing window to the position and show it; focus it when
    /// asked.
    Show { x: i64, y: i64, focus: bool },
    /// Hide the window.
    Hide,
    /// Leave everything as it is.
    NoAction,
}

/// Whether a window takes input focus when shown: the tray popup does, the
/// advisory alert popup never does.
pub open spec fn takes_focus(id: WindowId) -> bool {
    id is TrayPopup
}

/// A window that was never created.
pub open spec fn absent_window() -> WindowState {
    WindowState { exists: false, visible: false, x: 0, y: 0 }
}

/// Toggle: create and show an absent window, hide a visible one, move and
/// re-show a hidden one (screen geometry may have changed since creation).
pub open spec fn spec_toggle(w: WindowState, x: i64, y: i64, focus: bool) -> (
    WindowState,
    WindowAction,
) {
    if !w.exists {
        (
            WindowState { exists: true, visible: true, x, y },
            WindowAction::Create { x, y, focus },
        )
    } else if w.visible {
        (WindowState { visible: false, ..w }, WindowAction::Hide)
    } else {
        (WindowState { exists: true, visible: true, x, y }, WindowAction::Show { x, y, focus })
    }
}

/// Show-if-hidden: create and show an absent window, leave a visible one
/// untouched, move and re-show a hidden one.
pub open spec fn spec_show_if_hidden(w: WindowState, x: i64, y: i64, focus: bool) -> (
    WindowState,
    WindowAction,
) {
    if !w.exists {
        (
            WindowState { exists: true, visible: true, x, y },
            WindowAction::Create { x, y, focus },
        )
    } else if w.visible {
        (w, WindowAction::NoAction)
    } else {
        (WindowState { exists: true, visible: true, x, y }, WindowAction::Show { x, y, focus })
    }
}

/// Hide: hide a visible window, leave any other state untouched.
pub open spec fn spec_hide(w: WindowState) -> (WindowState, WindowAction) {
    if w.exists && w.visible {
        (WindowState { visible: false, ..w }, WindowAction::Hide)
    } else {
        (w, WindowAction::NoAction)
    }
}

/// The single authoritative record of both popup windows.
#[derive(Clone, Copy, Debug, PartialEq, Eq, Structural)]
pub struct WindowRegistry {
    /// State of the tray popup.
    pub tray_popup: WindowState,
    /// State of the high-CPU alert popup.
    pub alert: WindowState,
}

impl WindowRegistry {
    /// The record kept for `id`.
    pub open spec fn get(self, id: WindowId) -> WindowState {
        match id {
            WindowId::TrayPopup => self.tray_popup,
            WindowId::HighCpuAlert => self.alert,
        }
    }

    /// This registry with the record for `id` replaced by `w`.
    pub open spec fn with_window(self, id: WindowId, w: WindowState) -> WindowRegistry {
        match id {
            WindowId::TrayPopup => WindowRegistry { tray_popup: w, ..self },
            WindowId::HighCpuAlert => WindowRegistry { alert: w, ..self },
        }
    }

    /// Only a created window can be visible.
    pub open spec fn wf(self) -> bool {
        (self.tray_popup.visible ==> self.tray_popup.exists) && (self.alert.visible
            ==> self.alert.exists)
    }

    /// A registry in which neither window has been created yet.
    pub fn new() -> (r: WindowRegistry)
        ensures
            r.tray_popup == absent_window(),
            r.alert == absent_window(),
            r.wf(),
    {
        WindowRegistry {
            tray_popup: WindowState { exists: false, visible: false, x: 0, y: 0 },
            alert: WindowState { exists: false, visible: false, x: 0, y: 0 },
        }
    }

    /// Whether the window has been created.
    pub fn is_created(&self, id: WindowId) -> (b: bool)
        ensures
            b == self.get(id).exists,
    {
        match id {
            WindowId::TrayPopup => self.tray_popup.exists,
            WindowId::HighCpuAlert => self.alert.exists,
        }
    }

    /// Whether the window is currently shown.
    pub fn visible(&self, id: WindowId) -> (b: bool)
        ensures
            b == self.get(id).visible,
    {
        match id {
            WindowId::TrayPopup => self.tray_popup.visible,
            WindowId::HighCpuAlert => self.alert.visible,
        }
    }

    /// Toggles the window, placing it at `(x, y)` when it comes up; see
    /// [`spec_toggle`].
    pub fn toggle(&mut self, id: WindowId, x: i64, y: i64) -> (a: WindowAction)
        requires
            old(self).wf(),
        ensures
            *final(self) == old(self).with_window(
                id,
                spec_toggle(old(self).get(id), x, y, takes_focus(id)).0,
            ),
            a == spec_toggle(old(self).get(id), x, y, takes_focus(id)).1,
            final(self).wf(),
    {
        let focus = matches!(id, WindowId::TrayPopup);
        let w = match id {
            WindowId::TrayPopup => self.tray_popup,
            WindowId::HighCpuAlert => self.alert,
        };
        let (new_w, action) = if !w.exists {
            (
                WindowState { exists: true, visible: true, x, y },
                WindowAction::Create { x, y, focus },
            )
        } else if w.visible {
            (WindowState { visible: false, ..w }, WindowAction::Hide)
        } else {
            (
                WindowState { exists: true, visible: true, x, y },
                WindowAction::Show { x, y, focus },
            )
        };
        match id {
            WindowId::TrayPopup => self.tray_popup = new_w,
            WindowId::HighCpuAlert => self.alert = new_w,
        }
        action
    }

    /// Shows the window at `(x, y)` unless it is already visible; see
    /// [`spec_show_if_hidden`].
    pub fn show_if_hidden(&mut self, id: WindowId, x: i64, y: i64) -> (a: WindowAction)
        requires
            old(self).wf(),
        ensures
            *final(self) == old(self).with_window(
                id,
                spec_show_if_hidden(old(self).get(id), x, y, takes_focus(id)).0,
            ),
            a == spec_show_if_hidden(old(self).get(id), x, y, takes_focus(id)).1,
            final(self).wf(),
    {
        let focus = matches!(id, WindowId::TrayPopup);
        let w = match id {
            WindowId::TrayPopup => self.tray_popup,
            WindowId::HighCpuAlert => self.alert,
        };
        let (new_w, action) = if !w.exists {
            (
                WindowState { exists: true, visible: true, x, y },
                WindowAction::Create { x, y, focus },
            )
        } else if w.visible {
            (w, WindowAction::NoAction)
        } else {
            (
                WindowState { exists: true, visible: true, x, y },
                WindowAction::Show { x, y, focus },
            )
        };
        match id {
            WindowId::TrayPopup => self.tray_popup = new_w,
            WindowId::HighCpuAlert => self.alert = new_w,
        }
        action
    }

    /// Hides the window if it is visible; see [`spec_hide`].  This is also
    /// the step taken when a popup loses input focus (auto-hide): the window
    /// is hidden, never destroyed.
    pub fn hide_window(&mut self, id: WindowId) -> (a: WindowAction)
        requires
            old(self).wf(),
        ensures
            *final(self) == old(self).with_window(id, spec_hide(old(self).get(id)).0),
            a == spec_hide(old(self).get(id)).1,
            final(self).wf(),
    {
        let w = match id {
            WindowId::TrayPopup => self.tray_popup,
            WindowId::HighCpuAlert => self.alert,
        };
        let (new_w, action) = if w.exists && w.visible {
            (WindowState { visible: false, ..w }, WindowAction::Hide)
        } else {
            (w, WindowAction::NoAction)
        };
        match id {
            WindowId::TrayPopup => self.tray_popup = new_w,
            WindowId::HighCpuAlert => self.alert = new_w,
        }
        action
    }
}

/// A toggle leaves the window created, and flips visibility: the result is
/// visible exactly when the window was not showing before (absent or
/// hidden).
pub proof fn lemma_toggle_is_flip(w: WindowState, x: i64, y: i64, focus: bool)
    ensures
        spec_toggle(w, x, y, focus).0.exists,
        spec_toggle(w, x, y, focus).0.visible == !(w.exists && w.visible),
{
}

/// Two toggles in immediate succession restore the original visibility: a
/// shown popup goes visible, then hidden, like a simple two-state flip.
pub proof fn lemma_toggle_twice(
    w: WindowState,
    x1: i64,
    y1: i64,
    x2: i64,
    y2: i64,
    focus: bool,
)
    requires
        w.visible ==> w.exists,
    ensures
        spec_toggle(spec_toggle(w, x1, y1, focus).0, x2, y2, focus).0.visible == w.visible,
{
}

/// Show-if-hidden on an already-visible window changes nothing and asks for
/// nothing.
pub proof fn lemma_show_if_hidden_noop_when_visible(
    w: WindowState,
    x: i64,
    y: i64,
    focus: bool,
)
    requires
        w.exists,
        w.visible,
    ensures
        spec_show_if_hidden(w, x, y, focus).0 == w,
        spec_show_if_hidden(w, x, y, focus).1 == WindowAction::NoAction,
{
}

/// Show-if-hidden is idempotent: a second application (at any position)
/// leaves the state of the first.
pub proof fn lemma_show_if_hidden_idempotent(
    w: WindowState,
    x1: i64,
    y1: i64,
    x2: i64,
    y2: i64,
    focus: bool,
)
    ensures
        spec_show_if_hidden(spec_show_if_hidden(w, x1, y1, focus).0, x2, y2, focus).0
            == spec_show_if_hidden(w, x1, y1, focus).0,
{
}

/// Hide is idempotent, and hiding after a hide asks for nothing more.
pub proof fn lemma_hide_idempotent(w: WindowState)
    ensures
        spec_hide(spec_hide(w).0).0 == spec_hide(w).0,
        spec_hide(spec_hide(w).0).1 == WindowAction::NoAction,
{
}

} // verus!

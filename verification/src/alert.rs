//! Sustained-high-CPU alert state machine.
//!
//! One step is taken per sampling cycle, fed with the top-ranked process's
//! CPU usage (hundredths of a percent).  The alert becomes active only after
//! the usage has stayed at or above the threshold for the configured
//! duration, and only while the alert popup is enabled.

use vstd::prelude::*;

verus! {

/// Where the alert currently stands.
#[derive(Clone, Copy, Debug, PartialEq, Eq, Structural)]
pub enum AlertState {
    /// Usage below the threshold (or no data).
    Idle,
    /// Usage has been at or above the threshold for the carried number of
    /// seconds, which is still short of the duration (or the popup is
    /// disabled).
    Sustained(u32),
    /// The sustained threshold was reached and the alert popup is up.
    Active,
}

/// What the caller must do to the alert window after a step.
#[derive(Clone, Copy, Debug, PartialEq, Eq, Structural)]
pub enum AlertAction {
    /// Show the alert window if it is hidden.
    ShowAlert,
    /// Hide the alert window.
    HideAlert,
    /// Leave the alert window as it is.
    NoChange,
}

/// `n + m` capped at `u32::MAX`.
pub open spec fn sat_add_u32(n: u32, m: u32) -> u32 {
    if n + m > u32::MAX {
        u32::MAX
    } else {
        (n + m) as u32
    }
}

/// The seconds of sustained over-threshold usage carried by a state.
///
/// An `Active` state stands for at least the full duration.
pub open spec fn carried_seconds(state: AlertState, duration: u32) -> u32 {
    match state {
        AlertState::Idle => 0,
        AlertState::Sustained(n) => n,
        AlertState::Active => duration,
    }
}

/// One transition of the alert machine.
///
/// A dip below the threshold (or an empty snapshot) always resets to `Idle`,
/// hiding the alert window if it was up.  While at or above the threshold
/// the counter grows by the sampling interval; once it reaches `duration`
/// the machine activates and shows the window, but only while
/// `popup_enabled` holds — with the popup disabled it stays `Sustained`
/// indefinitely, and an `Active` alert is demoted to `Sustained` and hidden.
/// Staying `Active` is a no-op, so the show is idempotent.
pub open spec fn spec_alert_step(
    state: AlertState,
    top_cpu: Option<u32>,
    threshold: u32,
    duration: u32,
    interval: u32,
    popup_enabled: bool,
) -> (AlertState, AlertAction) {
    let over = match top_cpu {
        Some(u) => u >= threshold,
        None => false,
    };
    if !over {
        let action = if state is Active {
            AlertAction::HideAlert
        } else {
            AlertAction::NoChange
        };
        (AlertState::Idle, action)
    } else if state is Active {
        if popup_enabled {
            (AlertState::Active, AlertAction::NoChange)
        } else {
            (AlertState::Sustained(duration), AlertAction::HideAlert)
        }
    } else {
        let grown = sat_add_u32(carried_seconds(state, duration), interval);
        if grown >= duration && popup_enabled {
            (AlertState::Active, AlertAction::ShowAlert)
        } else {
            (AlertState::Sustained(grown), AlertAction::NoChange)
        }
    }
}

/// Runs one step of the alert machine; see [`spec_alert_step`].
pub fn alert_step(
    state: AlertState,
    top_cpu: Option<u32>,
    threshold: u32,
    duration: u32,
    interval: u32,
    popup_enabled: bool,
) -> (r: (AlertState, AlertAction))
    ensures
        r == spec_alert_step(state, top_cpu, threshold, duration, interval, popup_enabled),
{
    let over = match top_cpu {
        Some(u) => u >= threshold,
        None => false,
    };
    if !over {
        let action = if matches!(state, AlertState::Active) {
            AlertAction::HideAlert
        } else {
            AlertAction::NoChange
        };
        (AlertState::Idle, action)
    } else if matches!(state, AlertState::Active) {
        if popup_enabled {
            (AlertState::Active, AlertAction::NoChange)
        } else {
            (AlertState::Sustained(duration), AlertAction::HideAlert)
        }
    } else {
        let prev: u32 = match state {
            AlertState::Idle => 0,
            AlertState::Sustained(n) => n,
            AlertState::Active => duration,
        };
        let grown: u32 = if prev > u32::MAX - interval {
            u32::MAX
        } else {
            prev + interval
        };
        if grown >= duration && popup_enabled {
            (AlertState::Active, AlertAction::ShowAlert)
        } else {
            (AlertState::Sustained(grown), AlertAction::NoChange)
        }
    }
}

/// A single dip below the threshold (or an empty snapshot) resets the
/// machine to `Idle` from any state, dropping any accumulated time.
pub proof fn lemma_dip_resets(
    state: AlertState,
    top_cpu: Option<u32>,
    threshold: u32,
    duration: u32,
    interval: u32,
    popup_enabled: bool,
)
    requires
        top_cpu matches Some(u) ==> u < threshold,
    ensures
        spec_alert_step(state, top_cpu, threshold, duration, interval, popup_enabled).0
            == AlertState::Idle,
{
}

/// With the alert popup disabled the machine never is (or stays) `Active`,
/// whatever it sees.
pub proof fn lemma_disabled_popup_never_active(
    state: AlertState,
    top_cpu: Option<u32>,
    threshold: u32,
    duration: u32,
    interval: u32,
)
    ensures
        !(spec_alert_step(state, top_cpu, threshold, duration, interval, false).0 is Active),
{
}

} // verus!

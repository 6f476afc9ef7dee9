//! Application settings shared by the sampling loop and the command handlers.
//!
//! CPU percentages are carried as integer hundredths of a percent, so a
//! threshold of `100.0%` is stored as `10_000`.  Durations and intervals are
//! whole seconds.

use vstd::prelude::*;

verus! {

/// Policy for the tray title.
#[derive(Clone, Copy, Debug, PartialEq, Eq, Structural)]
pub enum TrayDisplayMode {
    /// Show the configured title parts whenever a snapshot is available.
    Always,
    /// Show a title only while the top process is at or above the
    /// high-CPU threshold.
    WarningOnly,
}

/// The complete, atomically replaced configuration of the monitor.
#[derive(Clone, Copy, Debug, PartialEq, Eq, Structural)]
pub struct AppSettings {
    /// Whether the background sampling loop refreshes on its own.
    pub auto_refresh: bool,
    /// Sampling cadence in seconds; always positive.
    pub refresh_interval: u32,
    /// Include the (truncated) top process name in the tray title.
    pub tray_show_process: bool,
    /// Include the top CPU percentage in the tray title.
    pub tray_show_percentage: bool,
    /// When the tray title is shown at all.
    pub tray_display_mode: TrayDisplayMode,
    /// Master switch for the high-CPU warning features.
    pub high_cpu_alert_enabled: bool,
    /// Alert threshold in hundredths of a percent.
    pub high_cpu_threshold: u32,
    /// Seconds the threshold must hold before the alert becomes active.
    pub high_cpu_duration: u32,
    /// Whether reaching the sustained threshold may open the alert popup.
    pub enable_high_cpu_popup: bool,
}

impl AppSettings {
    /// A settings value is well formed when its sampling cadence is positive.
    pub open spec fn wf(self) -> bool {
        self.refresh_interval > 0
    }

    /// The out-of-the-box configuration.
    pub open spec fn spec_default() -> AppSettings {
        AppSettings {
            auto_refresh: true,
            refresh_interval: 3,
            tray_show_process: true,
            tray_show_percentage: true,
            tray_display_mode: TrayDisplayMode::Always,
            high_cpu_alert_enabled: true,
            high_cpu_threshold: 10_000,
            high_cpu_duration: 30,
            enable_high_cpu_popup: false,
        }
    }
}

impl Default for AppSettings {
    /// Returns the out-of-the-box configuration, which is well formed.
    fn default() -> (s: AppSettings)
        ensures
            s == AppSettings::spec_default(),
            s.wf(),
    {
        AppSettings {
            auto_refresh: true,
            refresh_interval: 3,
            tray_show_process: true,
            tray_show_percentage: true,
            tray_display_mode: TrayDisplayMode::Always,
            high_cpu_alert_enabled: true,
            high_cpu_threshold: 10_000,
            high_cpu_duration: 30,
            enable_high_cpu_popup: false,
        }
    }
}

} // verus!

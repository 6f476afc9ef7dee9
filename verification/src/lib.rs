//! Core of a background CPU-monitor tray utility.
//!
//! The library holds the verified logic of the monitor: ranking a process
//! table by CPU usage, turning a ranked snapshot and the current settings
//! into tray title and tooltip text, placing transient popup windows next to
//! an estimated tray-icon anchor, managing the two singleton popup windows,
//! and running the sustained-high-CPU alert state machine.  The surrounding
//! binary does the OS work (process enumeration, window creation, timers) and
//! feeds plain values in and out of these functions.

pub mod alert;
pub mod commands;
pub mod cycle;
pub mod geometry;
pub mod lifecycle;
pub mod process;
pub mod render;
pub mod settings;
pub mod store;
pub mod text;

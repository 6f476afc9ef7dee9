//! Shared settings store.
//!
//! One settings value is shared between the periodic sampling task and the
//! command handlers.  It sits behind a verified reader-writer lock whose
//! invariant is well-formedness of the whole structure, so every reader
//! observes a complete settings value that some single write put there —
//! never a mix of fields from an old and a new value.

use vstd::prelude::*;
use vstd::rwlock::RwLock;
use crate::settings::AppSettings;

verus! {

/// The lock invariant: only well-formed settings are ever stored.
pub open spec fn settings_inv() -> spec_fn(AppSettings) -> bool {
    |s: AppSettings| s.wf()
}

/// Concurrently readable, atomically writable configuration.
///
/// `read` takes a shared lock and copies the whole value out; `write` takes
/// the exclusive lock and replaces the whole value.  Writes are serialized,
/// and a read observes either the value before or the value after any given
/// write.
pub struct SettingsStore {
    lock: RwLock<AppSettings, spec_fn(AppSettings) -> bool>,
}

impl SettingsStore {
    /// The store's lock enforces the settings invariant.
    pub closed spec fn wf(&self) -> bool {
        self.lock.pred() == settings_inv()
    }

    /// Creates a store holding `initial`.
    pub fn new(initial: AppSettings) -> (s: SettingsStore)
        requires
            initial.wf(),
        ensures
            s.wf(),
    {
        SettingsStore { lock: RwLock::new(initial, Ghost(settings_inv())) }
    }

    /// A non-blocking-for-writers snapshot copy of the current settings.
    ///
    /// The result is always a complete, well-formed value.
    pub fn read(&self) -> (s: AppSettings)
        requires
            self.wf(),
        ensures
            s.wf(),
    {
        let handle = self.lock.acquire_read();
        let s = *handle.borrow();
        handle.release_read();
        s
    }

    /// Atomically replaces the settings with `new_settings`.
    pub fn write(&self, new_settings: AppSettings)
        requires
            self.wf(),
            new_settings.wf(),
    {
        let (_, write_handle) = self.lock.acquire_write();
        write_handle.release_write(new_settings);
    }
}

/// Application-wide shared state handed to every command handler.
pub struct AppState {
    /// The shared settings store.
    pub settings: SettingsStore,
}

impl AppState {
    /// The state is well formed when its settings store is.
    pub open spec fn wf(&self) -> bool {
        self.settings.wf()
    }

    /// Creates the state with the out-of-the-box settings.
    pub fn new() -> (s: AppState)
        ensures
            s.wf(),
    {
        AppState { settings: SettingsStore::new(AppSettings::default()) }
    }
}

} // verus!

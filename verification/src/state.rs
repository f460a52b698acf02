//! The application's shared flags: whether keep-awake runs, whether debug
//! logging is on, whether this program started the ADB server, and whether
//! the microphone drainer is enabled.
use vstd::prelude::*;
use vstd::string::*;

verus! {

/// The application's shared flags.
#[derive(Debug, Clone, Copy, PartialEq, Eq, Structural)]
pub struct AppState {
    /// The keep-awake task runs.
    pub is_running: bool,
    /// Debug log lines are sent to the front end.
    pub debug_mode: bool,
    /// The ADB server was started by this program (and may be stopped on exit).
    pub adb_started_by_us: bool,
    /// The microphone drainer is enabled.
    pub mic_drainer_enabled: bool,
}

/// Every flag off.
pub open spec fn initial_state() -> AppState {
    AppState { is_running: false, debug_mode: false, adb_started_by_us: false, mic_drainer_enabled: false }
}

/// `s` with the keep-awake flag set to `running`.
pub open spec fn with_running(s: AppState, running: bool) -> AppState {
    AppState { is_running: running, ..s }
}

impl Default for AppState {
    fn default() -> (r: Self)
        ensures
            r == initial_state(),
    {
        AppState { is_running: false, debug_mode: false, adb_started_by_us: false, mic_drainer_enabled: false }
    }
}

/// The error when keep-awake is asked to start while it runs.
pub open spec fn already_running() -> Seq<char> {
    "Keep awake task is already running."@
}

/// The error when keep-awake is asked to stop while it does not run.
pub open spec fn not_running() -> Seq<char> {
    "Keep awake task is not running."@
}

impl AppState {
    /// Marks keep-awake as running; refused when it already runs.
    pub fn begin_keep_awake(&mut self) -> (r: Result<(), String>)
        ensures
            *final(self) == with_running(*old(self), true),
            match r {
                Ok(()) => !old(self).is_running,
                Err(e) => old(self).is_running && e@ == already_running(),
            },
    {
        let was = self.is_running;
        self.is_running = true;
        if was {
            Err(String::from_str("Keep awake task is already running."))
        } else {
            Ok(())
        }
    }

    /// Marks keep-awake as stopped; refused when it does not run.
    pub fn end_keep_awake(&mut self) -> (r: Result<(), String>)
        ensures
            *final(self) == with_running(*old(self), false),
            match r {
                Ok(()) => old(self).is_running,
                Err(e) => !old(self).is_running && e@ == not_running(),
            },
    {
        let was = self.is_running;
        self.is_running = false;
        if was {
            Ok(())
        } else {
            Err(String::from_str("Keep awake task is not running."))
        }
    }

    /// Turns debug logging on or off.
    pub fn set_debug_mode(&mut self, enabled: bool)
        ensures
            *final(self) == (AppState { debug_mode: enabled, ..*old(self) }),
    {
        self.debug_mode = enabled;
    }

    /// Records that this program started the ADB server.
    pub fn mark_adb_started_by_us(&mut self)
        ensures
            *final(self) == (AppState { adb_started_by_us: true, ..*old(self) }),
    {
        self.adb_started_by_us = true;
    }
}

} // verus!

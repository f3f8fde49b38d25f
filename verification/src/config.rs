//! Fixed names and budgets of the supervised backend.

use vstd::prelude::*;

verus! {

/// Host the backend is bound to when none is configured.
pub const BACKEND_HOST: &'static str = "127.0.0.1";

/// Port the backend listens on unless something else holds it.
pub const BACKEND_PORT_DEFAULT: u16 = 5055;

/// Last port of the range that is scanned when the default port is taken.
pub const BACKEND_PORT_FALLBACK_MAX: u16 = 5072;

/// Timeout of an ordinary health probe, in milliseconds.
pub const BACKEND_CONNECT_TIMEOUT_MS: u64 = 900;

/// Timeout of the second probe of the default port, in milliseconds.
pub const BACKEND_CONNECT_RECHECK_TIMEOUT_MS: u64 = 1500;

/// Time a freshly spawned backend is given to become healthy, in milliseconds.
pub const BACKEND_STARTUP_WAIT_TIMEOUT_MS: u64 = 18000;

/// Pause between two readiness polls, in milliseconds.
pub const BACKEND_STARTUP_POLL_INTERVAL_MS: u64 = 180;

/// Pause before the last look at a backend that has just become healthy, in milliseconds.
pub const BACKEND_STARTUP_SETTLE_MS: u64 = 120;

/// Path of the health endpoint.
pub const BACKEND_HEALTH_PATH: &'static str = "/health";

/// Number of bytes of a health response that are inspected.
pub const PROBE_RESPONSE_LIMIT: usize = 4096;

/// Number of times a process is polled for its exit after the polite signal.
pub const TERMINATION_POLL_ATTEMPTS: u32 = 16;

/// Pause between two such polls, in milliseconds.
pub const TERMINATION_POLL_INTERVAL_MS: u64 = 125;

/// Time after which the main window is revealed whatever the startup has reached, in milliseconds.
pub const SPLASH_FAILSAFE_TIMEOUT_MS: u64 = 45000;

/// The host system, as far as commands and file names depend on it.
#[derive(Clone, Copy, Debug, PartialEq, Eq, Structural)]
pub enum Platform {
    Windows,
    Unix,
}

/// Whether the program was built for development or for production.
#[derive(Clone, Copy, Debug, PartialEq, Eq, Structural)]
pub enum BuildMode {
    Development,
    Production,
}

} // verus!

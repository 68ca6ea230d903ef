//! Application-wide constants: service endpoints and default intervals.

use vstd::prelude::*;

verus! {

/// Performance and usage analytics endpoint (empty until one is deployed).
pub const PERFORMANCE_ENDPOINT: &'static str = "";

/// Version-check endpoint for updates (empty until one is deployed).
pub const UPDATE_ENDPOINT: &'static str = "";

/// The application version this build reports.
pub const APP_VERSION: &'static str = "0.1.0";

/// Default number of log entries to buffer before sending a batch.
pub const DEFAULT_LOG_BATCH_SIZE: usize = 50;

/// Default flush interval for remote logging: seven days, in seconds.
pub const DEFAULT_LOG_FLUSH_INTERVAL_SECONDS: u64 = 604800;

/// Default interval between update checks, in hours.
pub const DEFAULT_UPDATE_CHECK_INTERVAL_HOURS: u64 = 24;

/// Largest payload per logging request: two megabytes.
pub const MAX_PAYLOAD_SIZE_BYTES: usize = 2097152;

} // verus!

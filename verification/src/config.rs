//! Shared configuration records for the optional analytics facilities.

use vstd::prelude::*;
use crate::constants::{DEFAULT_LOG_FLUSH_INTERVAL_SECONDS, PERFORMANCE_ENDPOINT};

verus! {

/// Performance and analytics configuration.
#[derive(Debug, Clone)]
pub struct AnalyticsConfig {
    /// Whether to send crash logs and performance data.
    pub enabled: bool,
    /// Performance data endpoint.
    pub performance_endpoint: String,
    /// How often to send performance data, in seconds.
    pub performance_interval_seconds: u64,
}

impl Default for AnalyticsConfig {
    /// Enabled against the default endpoint, on the default weekly cadence.
    fn default() -> (r: AnalyticsConfig)
        ensures
            r.enabled == true,
            r.performance_endpoint@ == PERFORMANCE_ENDPOINT@,
            r.performance_interval_seconds == DEFAULT_LOG_FLUSH_INTERVAL_SECONDS,
    {
        AnalyticsConfig {
            enabled: true,
            performance_endpoint: String::from_str(PERFORMANCE_ENDPOINT),
            performance_interval_seconds: DEFAULT_LOG_FLUSH_INTERVAL_SECONDS,
        }
    }
}

} // verus!

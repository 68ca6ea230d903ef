//! Real-time noise-suppression engine core.
//!
//! The library models audio samples, gains and probability scores as
//! fixed-point integers with six decimal places (`SCALE` raw steps per 1.0),
//! so that every stage of the processing pipeline carries an exact contract.

use vstd::prelude::*;

pub mod ai_metrics;
pub mod analysis;
pub mod auto_update;
pub mod config;
pub mod constants;
pub mod devices;
pub mod digest;
pub mod fixed;
pub mod frame;
pub mod models;
pub mod pipeline;
pub mod remote_logging;
pub mod resampling;
pub mod system_info;
pub mod textfmt;
pub mod virtual_audio;

verus! {

/// Fixed-point scale: one unit of gain, probability or amplitude is
/// `SCALE` raw integer steps, i.e. values carry six decimal places.
pub const SCALE: i64 = 1_000_000;

/// Largest sample amplitude the pipeline accepts: 32.0 in fixed point.
/// Well-formed audio stays within [-1.0, 1.0]; the headroom keeps every
/// intermediate product far away from `i64` overflow.
pub const MAX_AMP: i64 = 32_000_000;

} // verus!

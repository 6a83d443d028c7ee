//! Progress of a probe instant through a fixed time window.
//!
//! A window is a closed interval of UTC instants. Given a probe instant, the
//! library computes the window's total duration, the elapsed and remaining
//! durations at the probe, all in milliseconds, and the elapsed fraction of
//! the window rounded to three decimal digits, half away from zero, held
//! scaled by 1000 as a per-mille count. All arithmetic is exact integer
//! arithmetic; callers that want the fraction or the remaining days as a
//! floating-point number divide the integer fields themselves.

use vstd::prelude::*;

mod rounding;
mod time_point;
mod window;

pub use rounding::lemma_round_permille_bounds;
pub use rounding::lemma_round_permille_full;
pub use rounding::lemma_round_permille_half;
pub use rounding::lemma_round_permille_zero;
pub use rounding::round_permille;
pub use rounding::round_permille_spec;
pub use time_point::create_time_point_from_string;
pub use time_point::parsed_timestamp_millis;
pub use time_point::TimePoint;
pub use window::lemma_derived_fields_deterministic;
pub use window::lemma_percentage_determined_by_rounding;
pub use window::lemma_probe_at_end_is_full;
pub use window::lemma_probe_at_midpoint_is_half;
pub use window::lemma_probe_at_start_is_zero;
pub use window::TimeWindow;
pub use window::TimeWindowError;

verus! {

} // verus!

//! Settings of the headless benchmark, and the run stamp its reports carry.
use vstd::prelude::*;
use std::time::{Duration, SystemTime};
use crate::text::{decimal_string, spec_decimal};

verus! {

/// Size of the offscreen target and the number of frames the benchmark draws.
#[derive(Clone, Copy, PartialEq, Eq, Debug, Structural)]
pub struct BenchOpts {
    pub width: u32,
    pub height: u32,
    pub warmup: u32,
    pub iters: u32,
    /// Use the software fallback adapter (for machines without a GPU).
    pub force_fallback: bool,
}

impl Default for BenchOpts {
    /// 1280×720, 8 warm-up frames, 120 timed frames, real adapter.
    fn default() -> (r: BenchOpts)
        ensures
            r == (BenchOpts { width: 1280, height: 720, warmup: 8, iters: 120, force_fallback: false }),
    {
        BenchOpts { width: 1280, height: 720, warmup: 8, iters: 120, force_fallback: false }
    }
}

#[verifier::external_type_specification]
#[verifier::external_body]
pub struct ExSystemTime(SystemTime);

/// `SystemTime::now`: the wall-clock time when called; nothing is promised of it.
#[verifier::external_body]
fn clock_now() -> SystemTime {
    SystemTime::now()
}

/// `SystemTime::duration_since(UNIX_EPOCH)`: `None` when `t` lies before the
/// epoch; otherwise a span of which nothing is stated here.
#[verifier::external_body]
fn since_unix_epoch(t: &SystemTime) -> Option<Duration> {
    t.duration_since(std::time::UNIX_EPOCH).ok()
}

/// `Duration::as_secs`: the whole seconds of `d`; nothing is stated of the value.
#[verifier::external_body]
fn whole_seconds(d: &Duration) -> u64 {
    d.as_secs()
}

/// Seconds since the Unix epoch as read now, 0 when the clock is before it.
fn unix_seconds() -> u64 {
    match since_unix_epoch(&clock_now()) {
        Some(d) => whole_seconds(&d),
        None => 0,
    }
}

/// The decimal stamp for `secs` seconds since the epoch.
pub fn stamp_for(secs: u64) -> (r: String)
    ensures
        r@ == spec_decimal(secs as nat),
{
    decimal_string(secs)
}

/// A stamp for output names: the current Unix time in whole seconds, in decimal.
pub fn chrono_stamp() -> (r: String)
    ensures
        exists|secs: u64| r@ == spec_decimal(secs as nat),
{
    let secs = unix_seconds();
    stamp_for(secs)
}

} // verus!

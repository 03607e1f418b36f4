//! Time: the instants at which installations start, and durations, which the
//! library holds as whole nanoseconds.

use vstd::prelude::*;

verus! {

/// The number of nanoseconds in a second.
pub const NANOS_PER_SEC: u128 = 1_000_000_000;

/// One more than the largest number of nanoseconds a `Duration` can hold
/// (`u64::MAX` seconds and 999,999,999 nanoseconds).
pub open spec fn duration_limit() -> int {
    (u64::MAX as int + 1) * 1_000_000_000
}

#[verifier::external_type_specification]
#[verifier::external_body]
pub struct ExInstant(std::time::Instant);

/// Calls `std::time::Instant::now`. Nothing is stated of the instant read.
#[verifier::external_body]
pub(crate) fn now() -> (r: std::time::Instant) {
    std::time::Instant::now()
}

/// Calls `Instant::elapsed` and gives the elapsed `Duration` in whole
/// nanoseconds (`Duration::as_nanos`). Claimed: only that the value is one a
/// `Duration` can hold; how much time passed is the clock's.
#[verifier::external_body]
pub(crate) fn elapsed_nanos(start: &std::time::Instant) -> (r: u128)
    ensures
        r < duration_limit(),
{
    start.elapsed().as_nanos()
}

/// What the debug rendering of `Duration::new(secs, nanos)` writes, such as
/// `30s`, `1.5s` or `200ms`.
pub uninterp spec fn duration_debug_text(secs: u64, nanos: u32) -> Seq<char>;

/// Formats `Duration::new(secs, nanos)` with `{:?}`.
///
/// Claimed: the text is `duration_debug_text(secs, nanos)`. `nanos` is below
/// one second, so `Duration::new` does not carry and cannot panic.
#[verifier::external_body]
fn debug_duration(secs: u64, nanos: u32) -> (r: String)
    requires
        nanos < 1_000_000_000,
    ensures
        r@ == duration_debug_text(secs, nanos),
{
    format!("{:?}", std::time::Duration::new(secs, nanos))
}

/// The debug rendering of a duration given in nanoseconds.
pub open spec fn duration_text(nanos: u128) -> Seq<char> {
    duration_debug_text((nanos / 1_000_000_000) as u64, (nanos % 1_000_000_000) as u32)
}

/// The debug rendering of a duration given in nanoseconds, such as `30s`.
pub fn format_duration_debug(nanos: u128) -> (r: String)
    requires
        nanos < duration_limit(),
    ensures
        r@ == duration_text(nanos),
{
    let secs = (nanos / NANOS_PER_SEC) as u64;
    let sub = (nanos % NANOS_PER_SEC) as u32;
    debug_duration(secs, sub)
}


/// What the debug rendering with one decimal (`{:.1?}`) of
/// `Duration::new(secs, nanos)` writes, such as `1.5s` or `200.0ms`.
pub uninterp spec fn duration_tenths_text(secs: u64, nanos: u32) -> Seq<char>;

/// Formats `Duration::new(secs, nanos)` with `{:.1?}`.
///
/// Claimed: the text is `duration_tenths_text(secs, nanos)`. `nanos` is below
/// one second, so `Duration::new` does not carry and cannot panic.
#[verifier::external_body]
fn debug_duration_tenths(secs: u64, nanos: u32) -> (r: String)
    requires
        nanos < 1_000_000_000,
    ensures
        r@ == duration_tenths_text(secs, nanos),
{
    format!("{:.1?}", std::time::Duration::new(secs, nanos))
}

/// The one-decimal debug rendering of a duration given in nanoseconds.
pub open spec fn duration_tenths(nanos: u128) -> Seq<char> {
    duration_tenths_text((nanos / 1_000_000_000) as u64, (nanos % 1_000_000_000) as u32)
}

/// The one-decimal debug rendering of a duration given in nanoseconds, such as `1.5s`.
pub fn format_duration_tenths(nanos: u128) -> (r: String)
    requires
        nanos < duration_limit(),
    ensures
        r@ == duration_tenths(nanos),
{
    let secs = (nanos / NANOS_PER_SEC) as u64;
    let sub = (nanos % NANOS_PER_SEC) as u32;
    debug_duration_tenths(secs, sub)
}

} // verus!

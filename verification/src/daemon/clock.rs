//! Spans of time as the supervisor counts them: in milliseconds, rounded so
//! that a comparison with a timeout comes out as it would on the span
//! itself.

use vstd::prelude::*;

verus! {

/// The nanoseconds in a span of `seconds` whole seconds and `nanoseconds`
/// nanoseconds on top.
pub open spec fn span_nanos(seconds: u64, nanoseconds: u32) -> int {
    seconds * 1_000_000_000 + nanoseconds
}

/// The milliseconds that have passed in full in a span.
pub open spec fn whole_millis(seconds: u64, nanoseconds: u32) -> int {
    seconds * 1000 + nanoseconds / 1_000_000
}

/// The milliseconds that have begun in a span: those that have passed in
/// full, and the one that is under way.
pub open spec fn begun_millis(seconds: u64, nanoseconds: u32) -> int {
    if nanoseconds % 1_000_000 == 0 {
        whole_millis(seconds, nanoseconds)
    } else {
        whole_millis(seconds, nanoseconds) + 1
    }
}

/// `count`, or the largest `u64` where `count` is larger.
pub open spec fn capped(count: int) -> u64 {
    if count > u64::MAX {
        u64::MAX
    } else {
        count as u64
    }
}

fn capped_sum(seconds: u64, millis: u64) -> (total: u64)
    requires
        millis <= 4295,
    ensures
        total == capped(seconds * 1000 + millis),
{
    if seconds > (u64::MAX - millis) / 1000 {
        u64::MAX
    } else {
        seconds * 1000 + millis
    }
}

/// The milliseconds that have passed in full in a span of `seconds` seconds
/// and `nanoseconds` nanoseconds. This is the count for a timeout that a
/// span has to stay under: the span is shorter than the timeout exactly when
/// the count is smaller.
pub fn elapsed_millis(seconds: u64, nanoseconds: u32) -> (count: u64)
    ensures
        count == capped(whole_millis(seconds, nanoseconds)),
{
    capped_sum(seconds, (nanoseconds / 1_000_000) as u64)
}

/// The milliseconds that have begun in a span of `seconds` seconds and
/// `nanoseconds` nanoseconds. This is the count for a timeout that a span
/// may reach but not pass: the span is longer than the timeout exactly when
/// the count is larger.
pub fn elapsed_millis_begun(seconds: u64, nanoseconds: u32) -> (count: u64)
    ensures
        count == capped(begun_millis(seconds, nanoseconds)),
{
    let whole: u64 = (nanoseconds / 1_000_000) as u64;
    if nanoseconds % 1_000_000 == 0 {
        capped_sum(seconds, whole)
    } else {
        capped_sum(seconds, whole + 1)
    }
}

/// Counting in milliseconds decides a timeout as the span itself does: a
/// span is shorter than a timeout exactly when fewer milliseconds have
/// passed in full, and longer than it exactly when more have begun.
pub proof fn lemma_millis_decide_timeouts(seconds: u64, nanoseconds: u32, timeout_ms: u64)
    requires
        nanoseconds < 1_000_000_000,
        timeout_ms < u64::MAX,
    ensures
        capped(whole_millis(seconds, nanoseconds)) < timeout_ms <==> span_nanos(
            seconds,
            nanoseconds,
        ) < timeout_ms * 1_000_000,
        capped(begun_millis(seconds, nanoseconds)) > timeout_ms <==> span_nanos(
            seconds,
            nanoseconds,
        ) > timeout_ms * 1_000_000,
{
}

} // verus!

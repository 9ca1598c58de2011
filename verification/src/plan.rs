//! Loop planning: how many times the source video must be concatenated with
//! itself to approach a caller-supplied size or duration ceiling without
//! exceeding it. Two budgeting policies exist; a deployment picks exactly
//! one through the `Budget` it hands in.

use crate::error::ClipError;
use crate::metadata::Coub;
use vstd::arithmetic::div_mod::lemma_basic_div;
use vstd::math::min;
use vstd::prelude::*;

verus! {

/// Hard cap on the loop count under the size-budget policy, bounding output
/// duration regardless of how small the source clip is.
pub const LOOP_CAP: u64 = 3;

/// A caller-supplied ceiling for one run: either a maximum output size in
/// bytes, or a maximum output duration in whole milliseconds.
#[derive(Clone, Copy, Debug, PartialEq, Eq, Structural)]
pub enum Budget {
    MaxBytes(u64),
    MaxMillis(u64),
}

/// Loop count under the size-budget policy: the budget divided by the
/// reported video size, rounded down, capped at `LOOP_CAP`.
pub open spec fn spec_size_loops(max_bytes: u64, size: u64) -> int
    recommends
        size > 0,
{
    min(max_bytes as int / size as int, LOOP_CAP as int)
}

/// Loop count under the duration-budget policy: the budget divided by the
/// reported clip duration, rounded down, uncapped.
pub open spec fn spec_duration_loops(max_millis: u64, duration_ms: u64) -> int
    recommends
        duration_ms > 0,
{
    max_millis as int / duration_ms as int
}

/// Plan under the size-budget policy. A reported size of zero is rejected
/// rather than divided by; otherwise the count is `floor(max_bytes / size)`
/// capped at `LOOP_CAP`, and rounding down keeps the output under budget
/// even when the size divides it exactly.
pub fn loops_for_size(max_bytes: u64, size: u64) -> (r: Result<u64, ClipError>)
    ensures
        (match r {
            Ok(n) => size != 0 && n == spec_size_loops(max_bytes, size),
            Err(e) => size == 0 && e == ClipError::Plan,
        }),
{
    if size == 0 {
        return Err(ClipError::Plan);
    }
    let q = max_bytes / size;
    if q < LOOP_CAP {
        Ok(q)
    } else {
        Ok(LOOP_CAP)
    }
}

/// Plan under the duration-budget policy. A reported duration of zero is
/// rejected rather than divided by; otherwise the count is
/// `floor(max_millis / duration_ms)`, rounding down to stay under budget.
pub fn loops_for_duration(max_millis: u64, duration_ms: u64) -> (r: Result<u64, ClipError>)
    ensures
        (match r {
            Ok(n) => duration_ms != 0 && n == spec_duration_loops(max_millis, duration_ms),
            Err(e) => duration_ms == 0 && e == ClipError::Plan,
        }),
{
    if duration_ms == 0 {
        return Err(ClipError::Plan);
    }
    Ok(max_millis / duration_ms)
}

/// The descriptor field a budget divides by: the video size for a byte
/// budget, the duration for a time budget.
pub open spec fn spec_divisor(budget: Budget, c: Coub) -> u64 {
    match budget {
        Budget::MaxBytes(_) => c.size,
        Budget::MaxMillis(_) => c.duration_ms,
    }
}

/// The planned loop count for a descriptor under a budget.
pub open spec fn spec_loops(budget: Budget, c: Coub) -> int
    recommends
        spec_divisor(budget, c) > 0,
{
    match budget {
        Budget::MaxBytes(b) => spec_size_loops(b, c.size),
        Budget::MaxMillis(m) => spec_duration_loops(m, c.duration_ms),
    }
}

/// Plan the loop count for one run: never negative, never over the policy's
/// cap, and a zero divisor from the metadata fails with `ClipError::Plan`
/// instead of dividing.
pub fn plan_loops(budget: Budget, coub: &Coub) -> (r: Result<u64, ClipError>)
    ensures
        (match r {
            Ok(n) => spec_divisor(budget, *coub) != 0 && n == spec_loops(budget, *coub),
            Err(e) => spec_divisor(budget, *coub) == 0 && e == ClipError::Plan,
        }),
{
    match budget {
        Budget::MaxBytes(b) => loops_for_size(b, coub.size),
        Budget::MaxMillis(m) => loops_for_duration(m, coub.duration_ms),
    }
}

/// Whether a planned count takes the concatenation path: counts 0 and 1 are
/// served by a single pass over the video, with no playlist.
pub open spec fn spec_uses_concat(loops: u64) -> bool {
    loops >= 2
}

/// Decide the transcode path for a planned count, folding a count of 1 into
/// the single-pass mode: one copy needs no playlist.
pub fn uses_concat(loops: u64) -> (r: bool)
    ensures
        r == spec_uses_concat(loops),
{
    loops >= 2
}

/// A source larger than the whole size budget gains nothing from looping:
/// the planned count is 0, and the single-pass path is chosen.
pub proof fn lemma_over_budget_single_pass(max_bytes: u64, size: u64)
    requires
        size > max_bytes,
    ensures
        spec_size_loops(max_bytes, size) == 0,
        forall|n: u64| n == spec_size_loops(max_bytes, size) ==> !spec_uses_concat(n),
{
    lemma_basic_div(max_bytes as int, size as int);
}

/// The size policy never plans past its cap.
pub proof fn lemma_size_loops_capped(max_bytes: u64, size: u64)
    ensures
        spec_size_loops(max_bytes, size) <= LOOP_CAP,
{
}

} // verus!

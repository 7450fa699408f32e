//! Compaction policy and the auto-compact trigger.
use vstd::prelude::*;

verus! {

/// Session-level compaction policy.
#[derive(Debug, Clone, Copy, PartialEq, Eq, Structural)]
pub struct CompactionPolicy {
    /// Percentage of the context window at which auto-compact fires.
    pub auto_compact_threshold_percent: u32,
    /// Whether compaction runs in two passes.
    pub two_pass_enabled: bool,
    /// Whether durable facts are flushed to memory before compacting.
    pub memory_flush_enabled: bool,
}

impl Default for CompactionPolicy {
    fn default() -> (r: Self)
        ensures
            r.auto_compact_threshold_percent == 85,
            !r.two_pass_enabled,
            !r.memory_flush_enabled,
    {
        CompactionPolicy {
            auto_compact_threshold_percent: 85,
            two_pass_enabled: false,
            memory_flush_enabled: false,
        }
    }
}

/// The usage percentage (rounded down) of `total` tokens in a window of
/// `window` tokens reaches `threshold`.
pub open spec fn usage_reaches(total: int, window: int, threshold: int) -> bool {
    total * 100 / window >= threshold
}

/// Whether `total_tokens` fill at least `threshold_percent` percent of a
/// context window of `context_window` tokens, the percentage being
/// `total_tokens * 100 / context_window` rounded down.
pub fn exceeds_threshold(total_tokens: u64, context_window: u64, threshold_percent: u8) -> (r: bool)
    requires
        context_window > 0,
    ensures
        r == usage_reaches(total_tokens as int, context_window as int, threshold_percent as int),
{
    let scaled: u128 = (total_tokens as u128) * 100;
    let usage_percent: u128 = scaled / (context_window as u128);
    usage_percent >= threshold_percent as u128
}

/// Usage reaches a threshold exactly when `total * 100 >= threshold * window`:
/// rounding the percentage down never moves the trigger point.
pub proof fn law_usage_reaches_iff_cross_multiplied(total: nat, window: nat, threshold: nat)
    requires
        window > 0,
    ensures
        usage_reaches(total as int, window as int, threshold as int) <==> total * 100 >= threshold
            * window,
{
    let q = total * 100 / window;
    let r = total * 100 % window;
    assert(total * 100 == q * window + r && 0 <= r < window) by (nonlinear_arith)
        requires
            window > 0,
            q == total * 100 / window,
            r == total * 100 % window,
    ;
    if q >= threshold {
        assert(q * window >= threshold * window) by (nonlinear_arith)
            requires
                q >= threshold,
                window > 0,
        ;
    } else {
        assert(q * window + window <= threshold * window) by (nonlinear_arith)
            requires
                q + 1 <= threshold,
                window > 0,
        ;
    }
}

/// More tokens never turn the trigger off: usage is monotone in the token count.
pub proof fn law_usage_reaches_monotone(total1: nat, total2: nat, window: nat, threshold: nat)
    requires
        window > 0,
        total1 <= total2,
        usage_reaches(total1 as int, window as int, threshold as int),
    ensures
        usage_reaches(total2 as int, window as int, threshold as int),
{
    law_usage_reaches_iff_cross_multiplied(total1, window, threshold);
    law_usage_reaches_iff_cross_multiplied(total2, window, threshold);
}

/// At a threshold of 100% auto-compact fires exactly when the window is full.
pub proof fn law_full_threshold_means_full_window(total: nat, window: nat)
    requires
        window > 0,
    ensures
        usage_reaches(total as int, window as int, 100) <==> total >= window,
{
    law_usage_reaches_iff_cross_multiplied(total, window, 100);
}

/// With a threshold of 0 auto-compact always fires.
pub proof fn law_zero_threshold_always_fires(total: nat, window: nat)
    requires
        window > 0,
    ensures
        usage_reaches(total as int, window as int, 0),
{
    law_usage_reaches_iff_cross_multiplied(total, window, 0);
}

} // verus!

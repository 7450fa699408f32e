use grok_agent::compaction::{exceeds_threshold, CompactionPolicy};

/// The auto-compact check on a window of `context_window` tokens at
/// `threshold` percent.
fn should_auto_compact_check(total_tokens: u64, context_window: u64, threshold: u32) -> bool {
    assert!(context_window > 0, "test context_window must be non-zero");
    exceeds_threshold(total_tokens, context_window, threshold as u8)
}

#[test]
fn test_should_auto_compact_below_threshold() {
    assert!(!should_auto_compact_check(80_000, 100_000, 85));
}

#[test]
fn test_should_auto_compact_above_threshold() {
    assert!(should_auto_compact_check(90_000, 100_000, 85));
}

#[test]
fn test_should_auto_compact_at_threshold() {
    assert!(should_auto_compact_check(85_000, 100_000, 85));
}

#[test]
fn test_should_auto_compact_empty_usage() {
    assert!(!should_auto_compact_check(0, 100_000, 85));
}

#[test]
fn test_should_auto_compact_100_percent_threshold() {
    assert!(!should_auto_compact_check(99_999, 100_000, 100));
    assert!(should_auto_compact_check(100_000, 100_000, 100));
}

#[test]
fn usage_percent_rounds_down() {
    // 84.999% rounds down to 84%.
    assert!(!exceeds_threshold(84_999, 100_000, 85));
    // 7 of 8 tokens is 87.5%, rounded down to 87%.
    assert!(exceeds_threshold(7, 8, 87));
    assert!(!exceeds_threshold(7, 8, 88));
}

#[test]
fn zero_threshold_always_fires() {
    assert!(exceeds_threshold(0, 1, 0));
    assert!(exceeds_threshold(0, u64::MAX, 0));
}

#[test]
fn huge_token_counts_do_not_overflow() {
    assert!(exceeds_threshold(u64::MAX, u64::MAX, 100));
    assert!(exceeds_threshold(u64::MAX, 1, 255));
    assert!(!exceeds_threshold(u64::MAX / 2, u64::MAX, 51));
}

#[test]
fn usage_is_monotone_in_tokens() {
    let mut last = false;
    for t in (0u64..=200_000).step_by(1_000) {
        let now = exceeds_threshold(t, 100_000, 85);
        assert!(!last || now);
        last = now;
    }
}

#[test]
fn compaction_policy_defaults() {
    let p = CompactionPolicy::default();
    assert_eq!(p.auto_compact_threshold_percent, 85);
    assert!(!p.two_pass_enabled);
    assert!(!p.memory_flush_enabled);
}

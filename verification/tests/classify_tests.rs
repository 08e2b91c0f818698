use schedscan::classify::{policy_label, priority_band};

#[test]
fn policy_codes_map_to_canonical_names() {
    assert_eq!(policy_label(0), "SCHED_OTHER");
    assert_eq!(policy_label(1), "SCHED_FIFO");
    assert_eq!(policy_label(2), "SCHED_RR");
    assert_eq!(policy_label(3), "SCHED_BATCH");
    assert_eq!(policy_label(5), "SCHED_IDLE");
}

#[test]
fn unrecognized_policy_codes_map_to_unknown() {
    assert_eq!(policy_label(99), "unknown");
    assert_eq!(policy_label(4), "unknown");
    assert_eq!(policy_label(-1), "unknown");
    assert_eq!(policy_label(i32::MIN), "unknown");
    assert_eq!(policy_label(i32::MAX), "unknown");
}

#[test]
fn priority_values_map_to_band_markers() {
    assert_eq!(priority_band(0), "*");
    assert_eq!(priority_band(33), "*");
    assert_eq!(priority_band(34), "**");
    assert_eq!(priority_band(50), "**");
    assert_eq!(priority_band(66), "**");
    assert_eq!(priority_band(67), "***");
    assert_eq!(priority_band(90), "***");
    assert_eq!(priority_band(99), "***");
}

#[test]
fn out_of_range_priorities_map_to_unknown() {
    assert_eq!(priority_band(100), "unknown");
    assert_eq!(priority_band(150), "unknown");
    assert_eq!(priority_band(-1), "unknown");
    assert_eq!(priority_band(i32::MIN), "unknown");
    assert_eq!(priority_band(i32::MAX), "unknown");
}

#[test]
fn classification_is_idempotent() {
    for code in [-5, 0, 1, 2, 3, 5, 7, 99] {
        assert_eq!(policy_label(code), policy_label(code));
        assert_eq!(priority_band(code), priority_band(code));
    }
}

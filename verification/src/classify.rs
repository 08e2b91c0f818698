//! Classification of raw scheduler values into human-readable labels.
//!
//! Both classifiers are total functions over the full `i32` domain: every
//! input, including negative sentinel values and arbitrarily large codes,
//! maps to a defined label and no input ever fails.

use vstd::prelude::*;

verus! {

/// The label assigned to a scheduling-policy code.
pub open spec fn policy_label_spec(code: int) -> Seq<char> {
    if code == 0 {
        "SCHED_OTHER"@
    } else if code == 1 {
        "SCHED_FIFO"@
    } else if code == 2 {
        "SCHED_RR"@
    } else if code == 3 {
        "SCHED_BATCH"@
    } else if code == 5 {
        "SCHED_IDLE"@
    } else {
        "unknown"@
    }
}

/// The band marker assigned to a real-time priority value: the kernel's
/// valid range `[0, 99]` splits into three contiguous bands of roughly
/// equal width, and everything outside it is unknown.
pub open spec fn priority_band_spec(value: int) -> Seq<char> {
    if 0 <= value && value <= 33 {
        "*"@
    } else if 34 <= value && value <= 66 {
        "**"@
    } else if 67 <= value && value <= 99 {
        "***"@
    } else {
        "unknown"@
    }
}

/// Maps a raw scheduling-policy code to its canonical name; any
/// unrecognized code maps to "unknown". Total: never fails.
pub fn policy_label(code: i32) -> (r: &'static str)
    ensures
        r@ == policy_label_spec(code as int),
{
    match code {
        0 => "SCHED_OTHER",
        1 => "SCHED_FIFO",
        2 => "SCHED_RR",
        3 => "SCHED_BATCH",
        5 => "SCHED_IDLE",
        _ => "unknown",
    }
}

/// Maps a raw real-time priority value to a coarse band marker; any value
/// outside the kernel's valid range maps to "unknown". Total: never fails.
pub fn priority_band(value: i32) -> (r: &'static str)
    ensures
        r@ == priority_band_spec(value as int),
{
    if 0 <= value && value <= 33 {
        "*"
    } else if 34 <= value && value <= 66 {
        "**"
    } else if 67 <= value && value <= 99 {
        "***"
    } else {
        "unknown"
    }
}

/// Law: `policy_label` is total — for every integer input its label is one
/// of the six defined strings, so the classifier is defined everywhere.
pub proof fn lemma_policy_label_total(code: int)
    ensures
        policy_label_spec(code) == "SCHED_OTHER"@ || policy_label_spec(code) == "SCHED_FIFO"@
            || policy_label_spec(code) == "SCHED_RR"@ || policy_label_spec(code)
            == "SCHED_BATCH"@ || policy_label_spec(code) == "SCHED_IDLE"@ || policy_label_spec(
            code,
        ) == "unknown"@,
{
}

/// Law: `priority_band` is total — for every integer input its marker is
/// one of the four defined strings, so the classifier is defined everywhere.
pub proof fn lemma_priority_band_total(value: int)
    ensures
        priority_band_spec(value) == "*"@ || priority_band_spec(value) == "**"@
            || priority_band_spec(value) == "***"@ || priority_band_spec(value) == "unknown"@,
{
}

/// Law: classification is idempotent — it carries no hidden state, so two
/// calls with the same input always yield the same label and band.
pub proof fn lemma_classification_idempotent(a: i32, b: i32)
    requires
        a == b,
    ensures
        policy_label_spec(a as int) == policy_label_spec(b as int),
        priority_band_spec(a as int) == priority_band_spec(b as int),
{
}

} // verus!

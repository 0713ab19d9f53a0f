//! Comparing a measured value with a warning and a critical threshold.

use vstd::prelude::*;
use crate::severity::Severity;

verus! {

/// Whether `value` triggers `threshold`: only a value strictly above it does,
/// and a threshold that is not set is never triggered.
pub open spec fn exceeds(value: int, threshold: Option<i64>) -> bool {
    match threshold {
        Some(limit) => value > limit,
        None => false,
    }
}

/// The warning threshold that takes effect: never above the critical one, so
/// that a warning is not harder to reach than the critical state.
pub open spec fn effective_warning(warn: Option<i64>, critical: Option<i64>) -> Option<i64> {
    match (warn, critical) {
        (Some(w), Some(c)) => Some(if w <= c { w } else { c }),
        _ => warn,
    }
}

/// The state that a value amounts to under the two thresholds.
pub open spec fn severity_of(value: int, warn: Option<i64>, critical: Option<i64>) -> Severity {
    if exceeds(value, critical) {
        Severity::Critical
    } else if exceeds(value, effective_warning(warn, critical)) {
        Severity::Warning
    } else {
        Severity::Okay
    }
}

/// The warning threshold in effect, see [`effective_warning`].
pub fn clamp_warning(warn: Option<i64>, critical: Option<i64>) -> (effective: Option<i64>)
    ensures
        effective == effective_warning(warn, critical),
{
    match (warn, critical) {
        (Some(w), Some(c)) => Some(if w <= c { w } else { c }),
        _ => warn,
    }
}

/// Judges `elapsed` against the two thresholds.
///
/// A value above the critical threshold is critical; failing that, a value
/// above the effective warning threshold is a warning; anything else is fine.
/// A value equal to a threshold does not trigger it.
pub fn evaluate(elapsed: i64, warn: Option<i64>, critical: Option<i64>) -> (severity: Severity)
    ensures
        severity == severity_of(elapsed as int, warn, critical),
        severity != Severity::Unknown,
{
    if let Some(limit) = critical {
        if elapsed > limit {
            return Severity::Critical;
        }
    }
    if let Some(limit) = clamp_warning(warn, critical) {
        if elapsed > limit {
            return Severity::Warning;
        }
    }
    Severity::Okay
}

/// With a warning threshold that does not exceed the critical one, the state
/// is critical exactly above the critical threshold, a warning exactly above
/// the warning threshold and up to the critical one, and fine exactly up to
/// the warning threshold.
pub proof fn lemma_ordered_thresholds(elapsed: i64, warn: i64, critical: i64)
    requires
        warn <= critical,
    ensures
        severity_of(elapsed as int, Some(warn), Some(critical)) == Severity::Critical
            <==> elapsed > critical,
        severity_of(elapsed as int, Some(warn), Some(critical)) == Severity::Warning
            <==> warn < elapsed <= critical,
        severity_of(elapsed as int, Some(warn), Some(critical)) == Severity::Okay
            <==> elapsed <= warn,
{
}

/// A warning threshold above the critical one counts as the critical one.
pub proof fn lemma_warning_is_clamped(elapsed: i64, warn: i64, critical: i64)
    requires
        warn > critical,
    ensures
        severity_of(elapsed as int, Some(warn), Some(critical)) == severity_of(
            elapsed as int,
            Some(critical),
            Some(critical),
        ),
        effective_warning(Some(warn), Some(critical)) == Some(critical),
{
}

/// A value that equals a threshold does not trigger that threshold's state,
/// whatever the other threshold is.
pub proof fn lemma_boundary_does_not_trigger(limit: i64, other: Option<i64>)
    ensures
        severity_of(limit as int, Some(limit), other) != Severity::Warning,
        severity_of(limit as int, other, Some(limit)) != Severity::Critical,
        other is None ==> severity_of(limit as int, Some(limit), other) == Severity::Okay,
{
}

/// A threshold that is not set is never triggered: without a critical
/// threshold no value is critical, and without a warning threshold no value
/// is a warning.
pub proof fn lemma_absent_threshold_never_triggers(elapsed: i64, other: Option<i64>)
    ensures
        severity_of(elapsed as int, other, None) != Severity::Critical,
        severity_of(elapsed as int, None, other) != Severity::Warning,
{
}

/// A value below zero, as a clock that runs behind yields, is fine under
/// thresholds that are not negative.
pub proof fn lemma_negative_elapsed_is_fine(elapsed: i64, warn: Option<i64>, critical: Option<i64>)
    requires
        elapsed < 0,
        warn matches Some(w) ==> w >= 0,
        critical matches Some(c) ==> c >= 0,
    ensures
        severity_of(elapsed as int, warn, critical) == Severity::Okay,
{
}

} // verus!

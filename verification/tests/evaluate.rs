use check_brandmeister::severity::Severity;
use check_brandmeister::threshold::{clamp_warning, evaluate};

#[test]
fn fresh_repeater_is_ok() {
    let severity = evaluate(152, Some(600), Some(900));
    assert_eq!(severity, Severity::Okay);
    assert_eq!(severity.exit_code(), 0);
    assert_eq!(severity.as_str(), "OK");
}

#[test]
fn stale_repeater_is_a_warning() {
    let severity = evaluate(650, Some(600), Some(900));
    assert_eq!(severity, Severity::Warning);
    assert_eq!(severity.exit_code(), 1);
    assert_eq!(severity.as_str(), "WARNING");
}

#[test]
fn silent_repeater_is_critical() {
    let severity = evaluate(950, Some(600), Some(900));
    assert_eq!(severity, Severity::Critical);
    assert_eq!(severity.exit_code(), 2);
    assert_eq!(severity.as_str(), "CRITICAL");
}

#[test]
fn unknown_has_its_own_exit_code_and_word() {
    assert_eq!(Severity::Unknown.exit_code(), 3);
    assert_eq!(Severity::Unknown.as_str(), "UNKNOWN");
}

#[test]
fn value_at_a_threshold_does_not_trigger_it() {
    assert_eq!(evaluate(600, Some(600), Some(900)), Severity::Okay);
    assert_eq!(evaluate(601, Some(600), Some(900)), Severity::Warning);
    assert_eq!(evaluate(900, Some(600), Some(900)), Severity::Warning);
    assert_eq!(evaluate(901, Some(600), Some(900)), Severity::Critical);
    assert_eq!(evaluate(900, None, Some(900)), Severity::Okay);
    assert_eq!(evaluate(600, Some(600), None), Severity::Okay);
}

#[test]
fn ordered_thresholds_split_the_values_in_three() {
    let (warn, critical) = (10i64, 20i64);
    for elapsed in -5i64..40 {
        let expected = if elapsed > critical {
            Severity::Critical
        } else if elapsed > warn {
            Severity::Warning
        } else {
            Severity::Okay
        };
        assert_eq!(evaluate(elapsed, Some(warn), Some(critical)), expected);
    }
}

#[test]
fn warning_above_critical_counts_as_critical_threshold() {
    assert_eq!(clamp_warning(Some(900), Some(600)), Some(600));
    assert_eq!(clamp_warning(Some(600), Some(900)), Some(600));
    assert_eq!(clamp_warning(Some(900), None), Some(900));
    assert_eq!(clamp_warning(None, Some(600)), None);
    for elapsed in [0i64, 599, 600, 601, 750, 899, 900, 901, 5000] {
        assert_eq!(
            evaluate(elapsed, Some(900), Some(600)),
            evaluate(elapsed, Some(600), Some(600))
        );
    }
    assert_eq!(evaluate(600, Some(900), Some(600)), Severity::Okay);
    assert_eq!(evaluate(750, Some(900), Some(600)), Severity::Critical);
}

#[test]
fn equal_thresholds_leave_no_room_for_a_warning() {
    assert_eq!(evaluate(600, Some(600), Some(600)), Severity::Okay);
    assert_eq!(evaluate(601, Some(600), Some(600)), Severity::Critical);
}

#[test]
fn absent_threshold_never_triggers() {
    assert_eq!(evaluate(i64::MAX, None, None), Severity::Okay);
    assert_eq!(evaluate(i64::MAX, Some(600), None), Severity::Warning);
    assert_eq!(evaluate(i64::MAX, None, Some(900)), Severity::Critical);
    assert_eq!(evaluate(700, None, Some(900)), Severity::Okay);
}

#[test]
fn negative_elapsed_is_ok() {
    assert_eq!(evaluate(-1, Some(600), Some(900)), Severity::Okay);
    assert_eq!(evaluate(i64::MIN, Some(0), Some(0)), Severity::Okay);
}

#[test]
fn zero_thresholds_trigger_on_the_first_second() {
    assert_eq!(evaluate(0, Some(0), Some(0)), Severity::Okay);
    assert_eq!(evaluate(1, Some(0), Some(900)), Severity::Warning);
    assert_eq!(evaluate(1, Some(0), Some(0)), Severity::Critical);
}

use check_brandmeister::error::ProbeError;
use check_brandmeister::severity::Severity;
use check_brandmeister::status::{render, render_failure};

#[test]
fn ok_line_with_critical_threshold_only() {
    let (code, line) = render("BrandMeister repeater 270107", Severity::Okay, 152, None, Some(900));
    assert_eq!(code, 0);
    assert_eq!(
        line,
        "BrandMeister repeater 270107 is OK: online status| 'last_seen'=152s;;900;0;"
    );
}

#[test]
fn ok_line_with_both_thresholds() {
    let (code, line) =
        render("BrandMeister repeater 270107", Severity::Okay, 152, Some(600), Some(900));
    assert_eq!(code, 0);
    assert!(line.contains("152"));
    assert_eq!(
        line,
        "BrandMeister repeater 270107 is OK: online status| 'last_seen'=152s;600;900;0;"
    );
}

#[test]
fn warning_line_is_a_single_line() {
    let (code, line) =
        render("BrandMeister repeater 270107", Severity::Warning, 650, Some(600), Some(900));
    assert_eq!(code, 1);
    assert_eq!(
        line,
        "BrandMeister repeater 270107 is WARNING: online status| 'last_seen'=650s;600;900;0;"
    );
    assert!(!line.contains('\n'));
}

#[test]
fn critical_line() {
    let (code, line) =
        render("BrandMeister repeater 270107", Severity::Critical, 950, Some(600), Some(900));
    assert_eq!(code, 2);
    assert_eq!(
        line,
        "BrandMeister repeater 270107 is CRITICAL: online status| 'last_seen'=950s;600;900;0;"
    );
}

#[test]
fn line_without_thresholds() {
    let (code, line) = render("r", Severity::Okay, 0, None, None);
    assert_eq!(code, 0);
    assert_eq!(line, "r is OK: online status| 'last_seen'=0s;;;0;");
}

#[test]
fn line_with_negative_elapsed() {
    let (_, line) = render("r", Severity::Okay, -42, Some(600), None);
    assert_eq!(line, "r is OK: online status| 'last_seen'=-42s;600;;0;");
}

#[test]
fn line_with_extreme_values() {
    let (_, line) = render("r", Severity::Critical, i64::MAX, Some(i64::MIN), Some(i64::MAX));
    assert_eq!(
        line,
        "r is CRITICAL: online status| 'last_seen'=9223372036854775807s;-9223372036854775808;9223372036854775807;0;"
    );
}

#[test]
fn label_is_not_trimmed() {
    let (_, line) = render(" spaced label ", Severity::Okay, 1, None, None);
    assert_eq!(line, " spaced label  is OK: online status| 'last_seen'=1s;;;0;");
    let (_, line) = render("", Severity::Okay, 1, None, None);
    assert_eq!(line, " is OK: online status| 'last_seen'=1s;;;0;");
}

#[test]
fn unknown_state_renders_with_its_word_and_code() {
    let (code, line) = render("r", Severity::Unknown, 5, None, None);
    assert_eq!(code, 3);
    assert_eq!(line, "r is UNKNOWN: online status| 'last_seen'=5s;;;0;");
}

#[test]
fn rendering_twice_gives_the_same_line() {
    let first = render("BrandMeister repeater 270107", Severity::Warning, 650, Some(600), Some(900));
    let second = render("BrandMeister repeater 270107", Severity::Warning, 650, Some(600), Some(900));
    assert_eq!(first, second);
}

#[test]
fn failure_line_names_the_failure() {
    let error = ProbeError::Fetch(String::from("Connection refused"));
    let (code, line) = render_failure(&error);
    assert_eq!(code, 3);
    assert_eq!(line, "UNKNOWN: Connection refused");
    let error = ProbeError::Timestamp(String::from("input contains invalid characters"));
    let (code, line) = render_failure(&error);
    assert_eq!(code, 3);
    assert_eq!(line, "UNKNOWN: input contains invalid characters");
}

#[test]
fn error_message_is_what_it_was_made_with() {
    assert_eq!(ProbeError::Fetch(String::from("a")).message(), "a");
    assert_eq!(ProbeError::Timestamp(String::from("b")).message(), "b");
    assert_eq!(ProbeError::Fetch(String::new()).message(), "");
}

//! The status line and exit code that a monitoring supervisor reads.

use nagiosplugin::{CheckResult, PerfData, Resource, ServiceState};
use vstd::prelude::*;
use vstd::string::StringExecFns;
use crate::decimal::decimal_text;
use crate::error::ProbeError;
use crate::severity::Severity;

verus! {

/// What the probe is said to watch, after the state's word.
pub const DESCRIPTION: &'static str = "online status";

/// The name of the elapsed-time metric in the performance data.
pub const METRIC_NAME: &'static str = "last_seen";

/// The least value of the elapsed-time metric in the performance data.
pub const METRIC_MINIMUM: i64 = 0;

/// The unit written after a metric's value.
#[derive(Clone, Copy, Debug, PartialEq, Eq, Structural)]
pub enum Unit {
    /// No unit: a plain number.
    Unitless,
    /// Seconds.
    Seconds,
}

impl Unit {
    /// The unit's suffix in performance data.
    pub open spec fn suffix(self) -> Seq<char> {
        match self {
            Unit::Unitless => Seq::empty(),
            Unit::Seconds => seq!['s'],
        }
    }
}

/// A threshold in performance data: its value in decimal, nothing where it is
/// not set.
pub open spec fn threshold_text(threshold: Option<i64>) -> Seq<char> {
    match threshold {
        Some(limit) => decimal_text(limit as int),
        None => Seq::empty(),
    }
}

/// The performance data of one metric: its quoted name, its value with the
/// unit, then the warning threshold, the critical threshold and the least
/// value, each closed by a semicolon. No greatest value follows.
pub open spec fn perf_data_text(
    metric: Seq<char>,
    value: int,
    unit: Unit,
    warn: Option<i64>,
    critical: Option<i64>,
    minimum: int,
) -> Seq<char> {
    seq!['\''] + metric + seq!['\'', '='] + decimal_text(value) + unit.suffix() + seq![';']
        + threshold_text(warn) + seq![';'] + threshold_text(critical) + seq![';'] + decimal_text(
        minimum,
    ) + seq![';']
}

/// A status line: the name of what is watched, its state, the description,
/// and the performance data after a bar.
pub open spec fn status_text(
    name: Seq<char>,
    severity: Severity,
    description: Seq<char>,
    perf_data: Seq<char>,
) -> Seq<char> {
    name + seq![' ', 'i', 's', ' '] + severity.word() + seq![':', ' '] + description + seq![
        '|',
        ' ',
    ] + perf_data
}

/// Whether `c` is a visible ASCII character, from `!` to `~`.
pub open spec fn is_visible_ascii(c: char) -> bool {
    '!' <= c && c <= '~'
}

/// Whether a text begins and ends with a visible ASCII character, if it has
/// any character at all. Trimming white space leaves such a text as it is.
pub open spec fn has_no_margin(text: Seq<char>) -> bool {
    text.len() > 0 ==> is_visible_ascii(text.first()) && is_visible_ascii(text.last())
}

/// Has nagiosplugin write the status line of a resource with one result,
/// which holds the given state and the performance data of one metric.
///
/// The resource is made by `Resource::new` and `with_description`, the result
/// by `CheckResult::new`, `with_state` and `with_perf_data`, the performance
/// data by `PerfData::new`, `with_minimum`, `with_unit` and `with_thresholds`;
/// the line is the text that `Resource::nagios_result` returns. The contract
/// writes out what that text is for a result without a message: nagiosplugin
/// trims the description, which [`has_no_margin`] makes a no-op, prints the
/// state by its `Display` word and the integers as `to_string` gives them.
#[verifier::external_body]
fn nagios_line(
    name: &str,
    severity: Severity,
    description: &str,
    metric: &str,
    value: i64,
    unit: Unit,
    warn: Option<i64>,
    critical: Option<i64>,
    minimum: i64,
) -> (line: String)
    requires
        has_no_margin(description@),
    ensures
        line@ == status_text(
            name@,
            severity,
            description@,
            perf_data_text(metric@, value as int, unit, warn, critical, minimum as int),
        ),
{
    let unit = match unit {
        Unit::Unitless => nagiosplugin::Unit::None,
        Unit::Seconds => nagiosplugin::Unit::Seconds,
    };
    let state = match severity {
        Severity::Okay => ServiceState::Ok,
        Severity::Warning => ServiceState::Warning,
        Severity::Critical => ServiceState::Critical,
        Severity::Unknown => ServiceState::Unknown,
    };
    let perf = PerfData::new(metric, value).with_minimum(minimum).with_unit(unit);
    let result = CheckResult::new().with_state(state).with_perf_data(perf.with_thresholds(warn, critical));
    Resource::new(name).with_description(description).with_result(result).nagios_result().1
}

/// The status line of a measured repeater.
pub open spec fn status_line(
    label: Seq<char>,
    severity: Severity,
    elapsed: int,
    warn: Option<i64>,
    critical: Option<i64>,
) -> Seq<char> {
    status_text(
        label,
        severity,
        DESCRIPTION@,
        perf_data_text(
            METRIC_NAME@,
            elapsed,
            Unit::Seconds,
            warn,
            critical,
            METRIC_MINIMUM as int,
        ),
    )
}

/// The status line of a probe that could not measure: the word for the
/// unknown state, then the failure's message.
pub open spec fn failure_line(message: Seq<char>) -> Seq<char> {
    Severity::Unknown.word() + seq![':', ' '] + message
}

/// Renders a measurement for the supervisor: the exit code of `severity`, and
/// one line that names `label`, the state and the elapsed seconds with the
/// two thresholds as performance data.
///
/// The line is a function of the arguments alone: the same arguments give the
/// same line, whenever and however often they are rendered.
pub fn render(
    label: &str,
    severity: Severity,
    elapsed: i64,
    warn: Option<i64>,
    critical: Option<i64>,
) -> (rendered: (i32, String))
    ensures
        rendered.0 == severity.code(),
        rendered.1@ == status_line(label@, severity, elapsed as int, warn, critical),
{
    proof {
        reveal_strlit("online status");
    }
    let line = nagios_line(
        label,
        severity,
        DESCRIPTION,
        METRIC_NAME,
        elapsed,
        Unit::Seconds,
        warn,
        critical,
        METRIC_MINIMUM,
    );
    (severity.exit_code(), line)
}

/// What [`render`] returns is settled by its arguments: two results that it
/// may give for the same label, state, elapsed time and thresholds are the
/// same exit code and the same line.
pub proof fn lemma_render_is_repeatable(
    label: Seq<char>,
    severity: Severity,
    elapsed: i64,
    warn: Option<i64>,
    critical: Option<i64>,
    first: (i32, String),
    second: (i32, String),
)
    requires
        first.0 == severity.code(),
        first.1@ == status_line(label, severity, elapsed as int, warn, critical),
        second.0 == severity.code(),
        second.1@ == status_line(label, severity, elapsed as int, warn, critical),
    ensures
        first.0 == second.0,
        first.1@ == second.1@,
{
}

/// Renders a failure for the supervisor: the exit code of the unknown state,
/// and one line that gives the failure's message in place of a metric.
pub fn render_failure(error: &ProbeError) -> (rendered: (i32, String))
    ensures
        rendered.0 == Severity::Unknown.code(),
        rendered.1@ == failure_line(error.text()),
{
    let mut line = String::from_str(Severity::Unknown.as_str());
    proof {
        reveal_strlit(": ");
    }
    line.append(": ");
    line.append(error.message());
    assert(line@ =~= failure_line(error.text()));
    (Severity::Unknown.exit_code(), line)
}

} // verus!

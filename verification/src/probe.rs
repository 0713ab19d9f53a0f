//! The probe from end to end: what to ask the network, what its answer
//! amounts to, and what the supervisor is told.

use vstd::prelude::*;
use vstd::string::StringExecFns;
use crate::decimal::{append_decimal, decimal_text};
use crate::error::ProbeError;
use crate::instant::Instant;
use crate::last_seen::{last_seen_outcome, last_seen_seconds};
use crate::severity::Severity;
use crate::status::{failure_line, render, render_failure, status_line};
use crate::threshold::{evaluate, severity_of};

verus! {

/// Where the network answers for a device; the repeater's identifier follows.
pub const DEVICE_ENDPOINT: &'static str = "https://api.brandmeister.network/v2/device/";

/// What a repeater is called in the status line; its identifier follows.
pub const LABEL_PREFIX: &'static str = "BrandMeister repeater ";

/// The warning threshold of a run that names none, in seconds.
pub const DEFAULT_WARN_SECONDS: i64 = 600;

/// The critical threshold of a run that names none, in seconds.
pub const DEFAULT_CRITICAL_SECONDS: i64 = 900;

/// What one run of the probe is asked to do.
#[derive(Clone, Copy, Debug)]
pub struct Config {
    /// The repeater to look up.
    pub repeater_id: u32,
    /// Seconds since last seen beyond which the state is a warning, if set.
    pub warn_seconds: Option<i64>,
    /// Seconds since last seen beyond which the state is critical, if set.
    pub critical_seconds: Option<i64>,
}

impl Config {
    /// The threshold that a run takes from what it was given: the given
    /// seconds, or the default where none were given.
    pub open spec fn threshold_or(given: Option<u32>, default: i64) -> Option<i64> {
        match given {
            Some(seconds) => Some(seconds as i64),
            None => Some(default),
        }
    }

    /// The configuration of a run for `repeater_id`, with each threshold as
    /// given or else at its default.
    pub fn new(repeater_id: u32, warn_seconds: Option<u32>, critical_seconds: Option<u32>) -> (config:
        Config)
        ensures
            config.repeater_id == repeater_id,
            config.warn_seconds == Self::threshold_or(warn_seconds, DEFAULT_WARN_SECONDS),
            config.critical_seconds == Self::threshold_or(
                critical_seconds,
                DEFAULT_CRITICAL_SECONDS,
            ),
    {
        let warn: i64 = match warn_seconds {
            Some(seconds) => seconds as i64,
            None => DEFAULT_WARN_SECONDS,
        };
        let critical: i64 = match critical_seconds {
            Some(seconds) => seconds as i64,
            None => DEFAULT_CRITICAL_SECONDS,
        };
        Config { repeater_id, warn_seconds: Some(warn), critical_seconds: Some(critical) }
    }
}

/// The network's answer for a repeater, as far as the probe reads it.
#[derive(Clone, Debug)]
pub struct RepeaterStatus {
    /// When the network last saw the repeater: `YYYY-MM-DD HH:MM:SS`, in UTC.
    pub last_seen: String,
}

/// A repeater's measured time since it was last seen, with the thresholds to
/// judge it by.
#[derive(Clone, Copy, Debug)]
pub struct Reading {
    /// The repeater that was looked up.
    pub repeater_id: u32,
    /// Seconds since the network last saw it.
    pub elapsed: i64,
    /// The warning threshold, if set.
    pub warn: Option<i64>,
    /// The critical threshold, if set.
    pub critical: Option<i64>,
}

/// The address that answers for a repeater.
pub open spec fn request_url_text(repeater_id: u32) -> Seq<char> {
    DEVICE_ENDPOINT@ + decimal_text(repeater_id as int)
}

/// The name of a repeater in the status line.
pub open spec fn label_text(repeater_id: u32) -> Seq<char> {
    LABEL_PREFIX@ + decimal_text(repeater_id as int)
}

/// The address to fetch for the state of a repeater.
pub fn request_url(repeater_id: u32) -> (url: String)
    ensures
        url@ == request_url_text(repeater_id),
{
    let mut url = String::from_str(DEVICE_ENDPOINT);
    append_decimal(&mut url, repeater_id as i64);
    url
}

/// The name of a repeater in the status line.
pub fn label(repeater_id: u32) -> (name: String)
    ensures
        name@ == label_text(repeater_id),
{
    let mut name = String::from_str(LABEL_PREFIX);
    append_decimal(&mut name, repeater_id as i64);
    name
}

impl Reading {
    /// The state that this reading amounts to.
    pub open spec fn verdict(self) -> Severity {
        severity_of(self.elapsed as int, self.warn, self.critical)
    }

    /// The status line of this reading.
    pub open spec fn line(self) -> Seq<char> {
        status_line(
            label_text(self.repeater_id),
            self.verdict(),
            self.elapsed as int,
            self.warn,
            self.critical,
        )
    }

    /// The state that this reading amounts to: the elapsed time judged by the
    /// two thresholds.
    pub fn severity(&self) -> (severity: Severity)
        ensures
            severity == self.verdict(),
            severity != Severity::Unknown,
    {
        evaluate(self.elapsed, self.warn, self.critical)
    }
}

/// What the outcome of a fetch amounts to at an instant: the elapsed seconds
/// of a reading, or the message of the failure.
pub open spec fn check_outcome(
    fetched: Result<Seq<char>, Seq<char>>,
    now_secs: int,
    now_nanos: int,
) -> Result<int, Seq<char>> {
    match fetched {
        Ok(last_seen) => last_seen_outcome(last_seen, now_secs, now_nanos),
        Err(message) => Err(message),
    }
}

/// The outcome of a fetch with its texts as characters: the last-seen time
/// of an answer, or the message of a failure.
pub open spec fn fetched_view(fetched: Result<RepeaterStatus, String>) -> Result<
    Seq<char>,
    Seq<char>,
> {
    match fetched {
        Ok(status) => Ok(status.last_seen@),
        Err(message) => Err(message@),
    }
}

/// Measures a repeater from what the fetch of [`request_url`] brought: the
/// network's answer, or the message of the failure to get one.
///
/// A failed fetch is handed on as a fetch error with its message. A last-seen
/// time is turned into the seconds up to `now` as [`last_seen_seconds`] does,
/// and comes back as a reading with the thresholds of `config`; where it
/// cannot be read, the timestamp error comes back.
pub fn do_check(
    config: &Config,
    fetched: Result<RepeaterStatus, String>,
    now: &Instant,
) -> (checked: Result<Reading, ProbeError>)
    ensures
        match checked {
            Ok(reading) => {
                &&& check_outcome(fetched_view(fetched), now.seconds(), now.nanoseconds())
                    == Ok::<int, Seq<char>>(reading.elapsed as int)
                &&& reading.repeater_id == config.repeater_id
                &&& reading.warn == config.warn_seconds
                &&& reading.critical == config.critical_seconds
            },
            Err(error) => {
                &&& check_outcome(fetched_view(fetched), now.seconds(), now.nanoseconds())
                    == Err::<int, Seq<char>>(error.text())
                &&& error is Fetch <==> fetched is Err
            },
        },
{
    match fetched {
        Ok(status) => match last_seen_seconds(status.last_seen.as_str(), now) {
            Ok(elapsed) => Ok(
                Reading {
                    repeater_id: config.repeater_id,
                    elapsed,
                    warn: config.warn_seconds,
                    critical: config.critical_seconds,
                },
            ),
            Err(error) => Err(error),
        },
        Err(message) => Err(ProbeError::Fetch(message)),
    }
}

/// What the supervisor is told of a check: the state, the exit code and the
/// status line.
#[derive(Debug)]
pub struct Report {
    /// The state of the repeater.
    pub severity: Severity,
    /// The exit code of the process.
    pub exit_code: i32,
    /// The one line for standard output.
    pub line: String,
}

/// The state that a check ends in: what the reading amounts to, or unknown
/// where there is none.
pub open spec fn outcome_severity(checked: Result<Reading, ProbeError>) -> Severity {
    match checked {
        Ok(reading) => reading.verdict(),
        Err(_) => Severity::Unknown,
    }
}

/// The status line that a check ends in.
pub open spec fn outcome_line(checked: Result<Reading, ProbeError>) -> Seq<char> {
    match checked {
        Ok(reading) => reading.line(),
        Err(error) => failure_line(error.text()),
    }
}

/// Reports a check to the supervisor.
///
/// A reading is judged by its thresholds and rendered with its metric. A
/// failure gives the unknown state and a line with the failure's message.
/// The exit code is that of the state.
pub fn report(checked: &Result<Reading, ProbeError>) -> (report: Report)
    ensures
        report.severity == outcome_severity(*checked),
        report.exit_code == report.severity.code(),
        report.line@ == outcome_line(*checked),
        report.severity is Unknown <==> checked is Err,
{
    match checked {
        Ok(reading) => {
            let severity = reading.severity();
            let name = label(reading.repeater_id);
            let (exit_code, line) = render(
                name.as_str(),
                severity,
                reading.elapsed,
                reading.warn,
                reading.critical,
            );
            Report { severity, exit_code, line }
        },
        Err(error) => {
            let (exit_code, line) = render_failure(error);
            Report { severity: Severity::Unknown, exit_code, line }
        },
    }
}

} // verus!

//! The last-seen time that the network reports, and the seconds that have
//! passed since then.

use chrono::{NaiveDateTime, TimeZone, Utc};
use vstd::prelude::*;
use vstd::string::{StrSliceExecFns, StringExecFns};
use crate::error::ProbeError;
use crate::instant::{elapsed_seconds, representable, Instant};

verus! {

/// The layout of the last-seen time in the network's answer: year, month,
/// day, hour, minute and second, read as UTC.
pub const LAST_SEEN_FORMAT: &'static str = "%Y-%m-%d %H:%M:%S";

/// The number of characters in a last-seen time.
pub const LAST_SEEN_LENGTH: usize = 19;

/// Message of the failure on a text that is not laid out as a last-seen time.
pub const MISSHAPEN: &'static str = "last-seen time is not of the form YYYY-MM-DD HH:MM:SS";

/// Message of the failure on a last-seen time that no [`Instant`] can hold.
pub const OUT_OF_RANGE: &'static str = "last-seen time is out of range";

/// Whether `c` is one of the digits `0` to `9`.
pub open spec fn is_digit(c: char) -> bool {
    '0' <= c && c <= '9'
}

/// The separator that a last-seen time has at `position`, where it has one:
/// hyphens within the date, a space after it, colons within the time.
pub open spec fn separator_at(position: int) -> Option<char> {
    if position == 4 || position == 7 {
        Some('-')
    } else if position == 10 {
        Some(' ')
    } else if position == 13 || position == 16 {
        Some(':')
    } else {
        None
    }
}

/// Whether `c` may stand at `position` of a last-seen time: the separator
/// where there is one, a digit elsewhere.
pub open spec fn fits_at(c: char, position: int) -> bool {
    match separator_at(position) {
        Some(separator) => c == separator,
        None => is_digit(c),
    }
}

/// Whether `text` is laid out as `YYYY-MM-DD HH:MM:SS`: nineteen characters,
/// digits but for the five separators.
pub open spec fn has_last_seen_shape(text: Seq<char>) -> bool {
    &&& text.len() == LAST_SEEN_LENGTH
    &&& forall|position: int|
        0 <= position < LAST_SEEN_LENGTH ==> fits_at(#[trigger] text[position], position)
}

/// Whether `c` may stand at `position` of a last-seen time.
fn char_fits_at(c: char, position: usize) -> (fits: bool)
    ensures
        fits == fits_at(c, position as int),
{
    if position == 4 || position == 7 {
        c == '-'
    } else if position == 10 {
        c == ' '
    } else if position == 13 || position == 16 {
        c == ':'
    } else {
        '0' <= c && c <= '9'
    }
}

/// Whether `text` is laid out as a last-seen time, see
/// [`has_last_seen_shape`].
pub fn is_last_seen_shaped(text: &str) -> (shaped: bool)
    ensures
        shaped == has_last_seen_shape(text@),
{
    if text.unicode_len() != LAST_SEEN_LENGTH {
        return false;
    }
    let mut position: usize = 0;
    while position < LAST_SEEN_LENGTH
        invariant
            text@.len() == LAST_SEEN_LENGTH,
            position <= LAST_SEEN_LENGTH,
            forall|earlier: int|
                0 <= earlier < position ==> fits_at(#[trigger] text@[earlier], earlier),
        decreases LAST_SEEN_LENGTH - position,
    {
        if !char_fits_at(text.get_char(position), position) {
            return false;
        }
        position += 1;
    }
    true
}

/// What chrono's `NaiveDateTime::parse_from_str` makes of `text` under
/// `format`, the date and time read as UTC: the seconds since the Unix epoch
/// with the nanosecond field, or, where chrono rejects the text, the message
/// of its error.
pub uninterp spec fn parsed_utc(text: Seq<char>, format: Seq<char>) -> Result<(i64, u32), Seq<char>>;

/// Calls chrono's `NaiveDateTime::parse_from_str` and takes the date and time
/// as UTC, as `TimeZone::from_utc_datetime` of `Utc` does. Nothing is proved
/// of chrono's parser: the outcome is [`parsed_utc`] of the two texts, which
/// says only that it depends on nothing else. An accepted time comes back as
/// `DateTime::timestamp` and `DateTime::timestamp_subsec_nanos` give it, a
/// rejected one as the text that chrono's error displays.
#[verifier::external_body]
fn parse_utc(text: &str, format: &str) -> (parsed: Result<(i64, u32), String>)
    ensures
        outcome_view(parsed) == parsed_utc(text@, format@),
{
    match NaiveDateTime::parse_from_str(text, format) {
        Ok(naive) => {
            let utc = Utc.from_utc_datetime(&naive);
            Ok((utc.timestamp(), utc.timestamp_subsec_nanos()))
        },
        Err(error) => Err(error.to_string()),
    }
}

/// A parser's outcome with the message, if it holds one, as its characters.
pub open spec fn outcome_view(parsed: Result<(i64, u32), String>) -> Result<(i64, u32), Seq<char>> {
    match parsed {
        Ok(at) => Ok(at),
        Err(message) => Err(message@),
    }
}

/// Whether `elapsed` hands on `outcome`: the same seconds, or a timestamp
/// error with the same message.
pub open spec fn hands_on(elapsed: Result<i64, ProbeError>, outcome: Result<int, Seq<char>>) -> bool {
    match elapsed {
        Ok(seconds) => outcome == Ok::<int, Seq<char>>(seconds as int),
        Err(error) => error is Timestamp && outcome == Err::<int, Seq<char>>(error.text()),
    }
}

/// The elapsed seconds that a parsed last-seen time amounts to at an instant,
/// or the message that explains why there are none: the parser's where it
/// rejected the text, [`OUT_OF_RANGE`] where no [`Instant`] holds the time.
pub open spec fn elapsed_outcome(
    parsed: Result<(i64, u32), Seq<char>>,
    now_secs: int,
    now_nanos: int,
) -> Result<int, Seq<char>> {
    match parsed {
        Ok((secs, nanos)) => if representable(secs as int, nanos as int) {
            Ok(elapsed_seconds(now_secs, now_nanos, secs as int, nanos as int))
        } else {
            Err(OUT_OF_RANGE@)
        },
        Err(message) => Err(message),
    }
}

/// The elapsed seconds that a last-seen text amounts to at an instant, or the
/// message that explains why there are none: [`MISSHAPEN`] where the text is
/// not laid out as a last-seen time, else as [`elapsed_outcome`] has it for
/// what the parser makes of the text.
pub open spec fn last_seen_outcome(text: Seq<char>, now_secs: int, now_nanos: int) -> Result<
    int,
    Seq<char>,
> {
    if has_last_seen_shape(text) {
        elapsed_outcome(parsed_utc(text, LAST_SEEN_FORMAT@), now_secs, now_nanos)
    } else {
        Err(MISSHAPEN@)
    }
}

/// Turns the outcome of parsing a last-seen time into the seconds that have
/// passed since then at `now`.
///
/// A parsed time gives the whole seconds from it to `now`, negative where it
/// lies ahead of `now`. A rejected text gives a timestamp error with the
/// parser's message, and so does a time that no [`Instant`] holds, with
/// [`OUT_OF_RANGE`] for its message.
pub fn elapsed_since(parsed: Result<(i64, u32), String>, now: &Instant) -> (elapsed: Result<
    i64,
    ProbeError,
>)
    ensures
        hands_on(
            elapsed,
            elapsed_outcome(outcome_view(parsed), now.seconds(), now.nanoseconds()),
        ),
{
    match parsed {
        Ok((secs, nanos)) => match Instant::new(secs, nanos) {
            Some(then) => Ok(now.seconds_since(&then)),
            None => Err(ProbeError::Timestamp(String::from_str(OUT_OF_RANGE))),
        },
        Err(message) => Err(ProbeError::Timestamp(message)),
    }
}

/// Seconds since the repeater was last seen, given the last-seen time as the
/// network reports it and the present instant.
///
/// A text that is not laid out as `YYYY-MM-DD HH:MM:SS` is a timestamp error
/// with [`MISSHAPEN`] for its message. One that is laid out so is parsed
/// under [`LAST_SEEN_FORMAT`] and read as UTC, and the result is what
/// [`elapsed_since`] makes of the parser's outcome.
pub fn last_seen_seconds(last_seen: &str, now: &Instant) -> (elapsed: Result<i64, ProbeError>)
    ensures
        hands_on(elapsed, last_seen_outcome(last_seen@, now.seconds(), now.nanoseconds())),
        elapsed is Ok ==> has_last_seen_shape(last_seen@),
{
    if is_last_seen_shaped(last_seen) {
        elapsed_since(parse_utc(last_seen, LAST_SEEN_FORMAT), now)
    } else {
        Err(ProbeError::Timestamp(String::from_str(MISSHAPEN)))
    }
}

} // verus!

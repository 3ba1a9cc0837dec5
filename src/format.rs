//! Rendering an instant in one of the output formats.

use vstd::prelude::*;

use crate::decimal::{decimal_of, to_decimal};
use crate::instant::{total_millis, total_nanos, valid_pair, Instant};

verus! {

/// The textual forms an instant can be written in.
#[derive(Clone, Copy, Debug, PartialEq, Eq, Structural)]
pub enum OutputFormat {
    /// Whole seconds since the epoch.
    Seconds,
    /// Total milliseconds since the epoch.
    Millis,
    /// Total nanoseconds since the epoch.
    Nanos,
    /// An RFC 2822 date and time in UTC, such as `Wed, 28 Jul 2021 18:30:05 +0000`.
    Rfc2822,
    /// An RFC 3339 date and time in UTC with its sub-second digits, such as
    /// `2021-07-28T18:30:05.123456789+00:00`.
    Rfc3339,
}

/// The RFC 2822 text that chrono writes for second `secs` of the epoch.
pub uninterp spec fn rfc2822_of(secs: int) -> Seq<char>;

/// The RFC 3339 text that chrono writes for the point `nanos` nanoseconds after
/// second `secs` of the epoch.
pub uninterp spec fn rfc3339_of(secs: int, nanos: int) -> Seq<char>;

/// The text of instant `t` in format `f`.
pub open spec fn output_text(t: Instant, f: OutputFormat) -> Seq<char> {
    match f {
        OutputFormat::Seconds => decimal_of(t.secs as int),
        OutputFormat::Millis => decimal_of(total_millis(t.secs as int, t.nanos as int)),
        OutputFormat::Nanos => decimal_of(total_nanos(t.secs as int, t.nanos as int)),
        OutputFormat::Rfc2822 => rfc2822_of(t.secs as int),
        OutputFormat::Rfc3339 => rfc3339_of(t.secs as int, t.nanos as int),
    }
}

/// Relies on chrono's `TimeZone::timestamp_opt` for `Utc`, which through
/// `NaiveDateTime::from_timestamp_opt` gives a single value for every second of
/// the calendar range, and on `DateTime::to_rfc2822`, which writes the date and
/// the second (never the nanoseconds) for any year.
#[verifier::external_body]
fn rfc2822_text(secs: i64) -> (r: Option<String>)
    requires
        valid_pair(secs as int, 0),
    ensures
        r is Some,
        r->0@ == rfc2822_of(secs as int),
{
    chrono::TimeZone::timestamp_opt(&chrono::Utc, secs, 0).single().as_ref().map(
        chrono::DateTime::to_rfc2822,
    )
}

/// Relies on chrono's `TimeZone::timestamp_opt` for `Utc`, which through
/// `NaiveDateTime::from_timestamp_opt` gives a single value for every second of
/// the calendar range with a nanosecond below one billion, and on
/// `DateTime::to_rfc3339`, which writes any such value.
#[verifier::external_body]
fn rfc3339_text(secs: i64, nanos: u32) -> (r: Option<String>)
    requires
        valid_pair(secs as int, nanos as int),
    ensures
        r is Some,
        r->0@ == rfc3339_of(secs as int, nanos as int),
{
    chrono::TimeZone::timestamp_opt(&chrono::Utc, secs, nanos).single().as_ref().map(
        chrono::DateTime::to_rfc3339,
    )
}

/// Writes `timestamp` in `format`.
pub fn convert_to_output(timestamp: &Instant, format: OutputFormat) -> (r: String)
    requires
        timestamp.wf(),
    ensures
        r@ == output_text(*timestamp, format),
{
    match format {
        OutputFormat::Seconds => to_decimal(timestamp.timestamp() as i128),
        OutputFormat::Millis => to_decimal(timestamp.timestamp_millis() as i128),
        OutputFormat::Nanos => to_decimal(timestamp.timestamp_nanos()),
        OutputFormat::Rfc2822 => match rfc2822_text(timestamp.secs) {
            Some(text) => text,
            None => {
                // A valid instant always has a text: this arm is never taken.
                proof {
                    assert(false);
                }
                String::new()
            },
        },
        OutputFormat::Rfc3339 => match rfc3339_text(timestamp.secs, timestamp.nanos) {
            Some(text) => text,
            None => {
                // A valid instant always has a text: this arm is never taken.
                proof {
                    assert(false);
                }
                String::new()
            },
        },
    }
}

/// The integer formats of a valid instant are the seconds, the seconds times one thousand plus the whole milliseconds of the
/// nanosecond part, and the seconds times one billion plus the nanosecond part.
pub proof fn integer_outputs(t: Instant)
    requires
        t.wf(),
    ensures
        output_text(t, OutputFormat::Seconds) == decimal_of(t.secs as int),
        output_text(t, OutputFormat::Millis) == decimal_of(
            t.secs as int * 1000 + t.nanos as int / 1_000_000,
        ),
        output_text(t, OutputFormat::Nanos) == decimal_of(
            t.secs as int * 1_000_000_000 + t.nanos as int,
        ),
{
}

/// Writing the same instant in the same format twice gives the same text: the
/// output depends on the instant and the format alone.
pub proof fn output_is_deterministic(
    t: Instant,
    f: OutputFormat,
    first: Seq<char>,
    second: Seq<char>,
)
    requires
        t.wf(),
        first == output_text(t, f),
        second == output_text(t, f),
    ensures
        first == second,
{
}

} // verus!

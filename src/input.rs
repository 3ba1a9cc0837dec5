//! Resolving an input mode and value to an instant.

use vstd::prelude::*;

use crate::decimal::{in_i64, literal_value, parse_i64};
use crate::instant::{valid_pair, Instant};

verus! {

/// How the input value is read.
#[derive(Clone, Copy, Debug, PartialEq, Eq, Structural)]
pub enum InputMode {
    /// The current time; no value is read.
    Now,
    /// The value counts seconds since the epoch.
    Seconds,
    /// The value counts milliseconds since the epoch.
    Millis,
    /// The value counts nanoseconds since the epoch.
    Nanos,
}

/// Why an input could not be resolved to an instant.
#[derive(Clone, Copy, Debug, PartialEq, Eq, Structural)]
pub enum InputError {
    /// The mode reads a value and none was given.
    MissingValue,
    /// The value is not a signed 64-bit decimal integer.
    InvalidNumber,
    /// The value splits into seconds and nanoseconds that name no instant of the
    /// calendar: out of its range, or with a negative nanosecond part.
    OutOfRange,
}

impl InputError {
    /// A short description of the error.
    pub fn message(&self) -> (r: &'static str) {
        match self {
            InputError::MissingValue => "no input value given",
            InputError::InvalidNumber => "invalid digit found in string or number too large",
            InputError::OutOfRange => "value out of range for a timestamp",
        }
    }
}

/// `a / b` rounded toward zero, for `b > 0`.
pub open spec fn trunc_div(a: int, b: int) -> int {
    if a >= 0 {
        a / b
    } else {
        -((-a) / b)
    }
}

/// The remainder that goes with `trunc_div`: it takes the sign of `a`.
pub open spec fn trunc_rem(a: int, b: int) -> int {
    a - b * trunc_div(a, b)
}

/// The whole seconds and the nanoseconds that value `v` stands for in `mode`,
/// split by division rounded toward zero. For a negative value that is not a
/// whole number of seconds the nanosecond part is negative.
pub open spec fn split_value(mode: InputMode, v: int) -> (int, int) {
    match mode {
        InputMode::Millis => (trunc_div(v, 1000), trunc_rem(v, 1000) * 1_000_000),
        InputMode::Nanos => (trunc_div(v, 1_000_000_000), trunc_rem(v, 1_000_000_000)),
        _ => (v, 0),
    }
}

/// The instant that value `v` stands for in `mode`, or `OutOfRange`.
pub open spec fn instant_of_value(mode: InputMode, v: int) -> Result<Instant, InputError> {
    let (s, n) = split_value(mode, v);
    if valid_pair(s, n) {
        Ok(Instant { secs: s as i64, nanos: n as u32 })
    } else {
        Err(InputError::OutOfRange)
    }
}

/// What `mode` and `value` resolve to, with `now` as the current time.
pub open spec fn resolved(mode: InputMode, value: Option<i64>, now: Instant) -> Result<
    Instant,
    InputError,
> {
    match mode {
        InputMode::Now => Ok(now),
        _ => match value {
            None => Err(InputError::MissingValue),
            Some(v) => instant_of_value(mode, v as int),
        },
    }
}

fn split_i64(mode: InputMode, v: i64) -> (r: (i64, i64))
    ensures
        r.0 as int == split_value(mode, v as int).0,
        r.1 as int == split_value(mode, v as int).1,
{
    let w = v as i128;
    match mode {
        InputMode::Millis => {
            let q: i128 = if w >= 0 { w / 1000 } else { -((-w) / 1000) };
            let rem: i128 = w - 1000 * q;
            (q as i64, (rem * 1_000_000) as i64)
        },
        InputMode::Nanos => {
            let q: i128 = if w >= 0 { w / 1_000_000_000 } else { -((-w) / 1_000_000_000) };
            let rem: i128 = w - 1_000_000_000 * q;
            (q as i64, rem as i64)
        },
        _ => (v, 0),
    }
}

/// Resolves `mode` and `value` to an instant, taking `now` as the current time
/// in the `Now` mode, which reads no value. The other modes need a value, split
/// into seconds and nanoseconds by division rounded toward zero.
pub fn resolve_instant(mode: InputMode, value: Option<i64>, now: Instant) -> (r: Result<
    Instant,
    InputError,
>)
    requires
        now.wf(),
    ensures
        r == resolved(mode, value, now),
        r matches Ok(t) ==> t.wf(),
{
    match mode {
        InputMode::Now => Ok(now),
        _ => match value {
            None => Err(InputError::MissingValue),
            Some(v) => {
                let (s, n) = split_i64(mode, v);
                if 0 <= n && n < 1_000_000_000 {
                    match Instant::from_parts(s, n as u32) {
                        Some(t) => Ok(t),
                        None => Err(InputError::OutOfRange),
                    }
                } else {
                    Err(InputError::OutOfRange)
                }
            },
        },
    }
}

/// The text of `input`, where there is one.
pub open spec fn text_of(input: Option<&str>) -> Option<Seq<char>> {
    match input {
        Some(s) => Some(s@),
        None => None,
    }
}

/// What `input` resolves to in a `mode` that reads a value: `MissingValue`
/// without one, `InvalidNumber` where it is no `i64` literal.
pub open spec fn value_input(mode: InputMode, input: Option<Seq<char>>) -> Result<
    Instant,
    InputError,
> {
    match input {
        None => Err(InputError::MissingValue),
        Some(s) => match literal_value(s) {
            Some(v) => if in_i64(v) {
                instant_of_value(mode, v)
            } else {
                Err(InputError::InvalidNumber)
            },
            None => Err(InputError::InvalidNumber),
        },
    }
}

/// Reads the input in `mode`: the system clock for `Now`, which reads no value;
/// else `input` parsed as a signed 64-bit decimal integer and resolved as
/// `resolve_instant` does.
pub fn parse_input(mode: InputMode, input: Option<&str>) -> (r: Result<Instant, InputError>)
    ensures
        r matches Ok(t) ==> t.wf(),
        mode == InputMode::Now ==> r is Ok,
        mode != InputMode::Now ==> r == value_input(mode, text_of(input)),
{
    match mode {
        InputMode::Now => Ok(Instant::now()),
        _ => match input {
            None => Err(InputError::MissingValue),
            Some(s) => match parse_i64(s) {
                None => Err(InputError::InvalidNumber),
                Some(v) => resolve_instant(mode, Some(v), Instant::epoch()),
            },
        },
    }
}

/// A value of zero stands for the epoch in every mode that reads a value.
pub proof fn zero_is_epoch(mode: InputMode, now: Instant)
    requires
        mode != InputMode::Now,
    ensures
        instant_of_value(mode, 0) == Ok::<Instant, InputError>(Instant { secs: 0, nanos: 0 }),
        resolved(mode, Some(0), now) == Ok::<Instant, InputError>(Instant { secs: 0, nanos: 0 }),
{
}

} // verus!

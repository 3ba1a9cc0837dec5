//! Turning the parsed command-line options into an input mode and an output format.

use vstd::prelude::*;

use crate::format::OutputFormat;
use crate::input::InputMode;

verus! {

/// A command line that names no valid invocation.
#[derive(Clone, Copy, Debug, PartialEq, Eq, Structural)]
pub enum UsageError {
    /// More than one output format was asked for.
    ConflictingOutputs,
    /// The input mode keyword is none of the known ones.
    UnknownInputMode,
    /// The input mode reads a value and none was given.
    MissingValue,
}

impl UsageError {
    /// A short description of the error.
    pub fn message(&self) -> (r: &'static str) {
        match self {
            UsageError::ConflictingOutputs => "at most one output format may be given",
            UsageError::UnknownInputMode => "the input mode must be one of now, secs, s, millis, m, nanos, n",
            UsageError::MissingValue => "an input value is required unless the input mode is now",
        }
    }
}

/// Which output format options are present on the command line.
#[derive(Clone, Copy, Debug, PartialEq, Eq, Structural)]
pub struct OutputFlags {
    pub millis: bool,
    pub nanos: bool,
    pub rfc2822: bool,
    pub rfc3339: bool,
}

/// An input mode and an output format that fit together.
#[derive(Clone, Copy, Debug, PartialEq, Eq, Structural)]
pub struct Invocation {
    pub mode: InputMode,
    pub format: OutputFormat,
}

/// How many output format options are present.
pub open spec fn flag_count(f: OutputFlags) -> int {
    (if f.millis { 1int } else { 0 }) + (if f.nanos { 1int } else { 0 }) + (if f.rfc2822 {
        1int
    } else {
        0
    }) + (if f.rfc3339 { 1int } else { 0 })
}

/// The output format that the options ask for: seconds where none is present,
/// an error where more than one is.
pub open spec fn chosen_format(f: OutputFlags) -> Result<OutputFormat, UsageError> {
    if flag_count(f) > 1 {
        Err(UsageError::ConflictingOutputs)
    } else if f.millis {
        Ok(OutputFormat::Millis)
    } else if f.nanos {
        Ok(OutputFormat::Nanos)
    } else if f.rfc2822 {
        Ok(OutputFormat::Rfc2822)
    } else if f.rfc3339 {
        Ok(OutputFormat::Rfc3339)
    } else {
        Ok(OutputFormat::Seconds)
    }
}

/// The input mode that keyword `k` names, with its one-letter aliases.
pub open spec fn keyword_mode(k: Seq<char>) -> Result<InputMode, UsageError> {
    if k == "now"@ {
        Ok(InputMode::Now)
    } else if k == "secs"@ || k == "s"@ {
        Ok(InputMode::Seconds)
    } else if k == "millis"@ || k == "m"@ {
        Ok(InputMode::Millis)
    } else if k == "nanos"@ || k == "n"@ {
        Ok(InputMode::Nanos)
    } else {
        Err(UsageError::UnknownInputMode)
    }
}

/// The invocation that the options describe: the output options are checked
/// first, then the input mode keyword (`now` where none is given), then the
/// presence of a value where the mode reads one.
pub open spec fn chosen_invocation(
    from: Option<Seq<char>>,
    has_input: bool,
    flags: OutputFlags,
) -> Result<Invocation, UsageError> {
    match chosen_format(flags) {
        Err(e) => Err(e),
        Ok(format) => {
            let mode = match from {
                None => Ok(InputMode::Now),
                Some(k) => keyword_mode(k),
            };
            match mode {
                Err(e) => Err(e),
                Ok(m) => if m != InputMode::Now && !has_input {
                    Err(UsageError::MissingValue)
                } else {
                    Ok(Invocation { mode: m, format })
                },
            }
        },
    }
}

fn same_text(a: &str, b: &str) -> (r: bool)
    ensures
        r == (a@ == b@),
{
    let n = a.unicode_len();
    if n != b.unicode_len() {
        return false;
    }
    let mut i: usize = 0;
    while i < n
        invariant
            n == a@.len(),
            n == b@.len(),
            i <= n,
            a@.subrange(0, i as int) == b@.subrange(0, i as int),
        decreases n - i,
    {
        if a.get_char(i) != b.get_char(i) {
            return false;
        }
        assert(a@.subrange(0, i + 1) =~= a@.subrange(0, i as int).push(a@[i as int]));
        assert(b@.subrange(0, i + 1) =~= b@.subrange(0, i as int).push(b@[i as int]));
        i = i + 1;
    }
    assert(a@ =~= a@.subrange(0, n as int));
    assert(b@ =~= b@.subrange(0, n as int));
    true
}

/// The output format that the options ask for. The options exclude each other;
/// with none of them the format is whole seconds.
pub fn parse_output_format(flags: &OutputFlags) -> (r: Result<OutputFormat, UsageError>)
    ensures
        r == chosen_format(*flags),
{
    let count: u8 = flags.millis as u8 + flags.nanos as u8 + flags.rfc2822 as u8
        + flags.rfc3339 as u8;
    if count > 1 {
        Err(UsageError::ConflictingOutputs)
    } else if flags.millis {
        Ok(OutputFormat::Millis)
    } else if flags.nanos {
        Ok(OutputFormat::Nanos)
    } else if flags.rfc2822 {
        Ok(OutputFormat::Rfc2822)
    } else if flags.rfc3339 {
        Ok(OutputFormat::Rfc3339)
    } else {
        Ok(OutputFormat::Seconds)
    }
}

/// The input mode that `keyword` names: `now`; `secs` or `s`; `millis` or `m`;
/// `nanos` or `n`.
pub fn parse_input_mode(keyword: &str) -> (r: Result<InputMode, UsageError>)
    ensures
        r == keyword_mode(keyword@),
{
    if same_text(keyword, "now") {
        Ok(InputMode::Now)
    } else if same_text(keyword, "secs") || same_text(keyword, "s") {
        Ok(InputMode::Seconds)
    } else if same_text(keyword, "millis") || same_text(keyword, "m") {
        Ok(InputMode::Millis)
    } else if same_text(keyword, "nanos") || same_text(keyword, "n") {
        Ok(InputMode::Nanos)
    } else {
        Err(UsageError::UnknownInputMode)
    }
}

/// Checks the options of one invocation: at most one output format, a known
/// input mode keyword (`now` where `from` is absent), and a value wherever the
/// mode reads one.
pub fn resolve_arguments(from: Option<&str>, input: Option<&str>, flags: &OutputFlags) -> (r:
    Result<Invocation, UsageError>)
    ensures
        r == chosen_invocation(crate::input::text_of(from), input is Some, *flags),
{
    let format = match parse_output_format(flags) {
        Ok(f) => f,
        Err(e) => return Err(e),
    };
    let mode = match from {
        None => InputMode::Now,
        Some(k) => match parse_input_mode(k) {
            Ok(m) => m,
            Err(e) => return Err(e),
        },
    };
    if mode != InputMode::Now && input.is_none() {
        Err(UsageError::MissingValue)
    } else {
        Ok(Invocation { mode, format })
    }
}

} // verus!

//! Conversions between Unix timestamps and their textual forms.

pub mod decimal;
pub mod instant;
pub mod format;
pub mod input;
pub mod args;

pub use args::{resolve_arguments, parse_input_mode, parse_output_format, Invocation, OutputFlags, UsageError};
pub use format::{convert_to_output, OutputFormat};
pub use input::{parse_input, resolve_instant, InputError, InputMode};
pub use instant::Instant;

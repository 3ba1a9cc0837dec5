use unixtime::{parse_input_mode, parse_output_format, resolve_arguments, InputMode, Invocation, OutputFlags, OutputFormat, UsageError};

/// The output options of the command line, read by clap as the program reads them.
fn flags_of(args: Vec<&str>) -> OutputFlags {
    let app = clap::App::new("unixtime")
        .arg(clap::Arg::with_name("millis").long("millis").short("m"))
        .arg(clap::Arg::with_name("nanos").long("nanos").short("n"))
        .arg(clap::Arg::with_name("rfc3339").long("rfc3339"))
        .arg(clap::Arg::with_name("rfc2822").long("rfc2822"));
    let matches = app.get_matches_from(args);
    OutputFlags {
        millis: matches.is_present("millis"),
        nanos: matches.is_present("nanos"),
        rfc2822: matches.is_present("rfc2822"),
        rfc3339: matches.is_present("rfc3339"),
    }
}

#[test]
fn parse_output_format_secs() {
    let flags = flags_of(vec!["unixtime"]);
    assert_eq!(Ok(OutputFormat::Seconds), parse_output_format(&flags));
}

#[test]
fn parse_output_format_millis() {
    let flags = flags_of(vec!["unixtime", "--millis"]);
    assert_eq!(Ok(OutputFormat::Millis), parse_output_format(&flags));
}

#[test]
fn parse_output_format_nanos() {
    let flags = flags_of(vec!["unixtime", "--nanos"]);
    assert_eq!(Ok(OutputFormat::Nanos), parse_output_format(&flags));
}

#[test]
fn parse_output_format_rfc2822() {
    let flags = flags_of(vec!["unixtime", "--rfc2822"]);
    assert_eq!(Ok(OutputFormat::Rfc2822), parse_output_format(&flags));
}

#[test]
fn parse_output_format_rfc3339() {
    let flags = flags_of(vec!["unixtime", "--rfc3339"]);
    assert_eq!(Ok(OutputFormat::Rfc3339), parse_output_format(&flags));
}

#[test]
fn two_output_formats_conflict() {
    let flags = flags_of(vec!["unixtime", "--millis", "--nanos"]);
    assert_eq!(Err(UsageError::ConflictingOutputs), parse_output_format(&flags));
    assert_eq!(Err(UsageError::ConflictingOutputs), resolve_arguments(Some("secs"), Some("1"), &flags));
    let all = OutputFlags { millis: true, nanos: true, rfc2822: true, rfc3339: true };
    assert_eq!(Err(UsageError::ConflictingOutputs), parse_output_format(&all));
}

#[test]
fn value_required_unless_now() {
    let none = flags_of(vec!["unixtime"]);
    assert_eq!(Err(UsageError::MissingValue), resolve_arguments(Some("secs"), None, &none));
    assert_eq!(Err(UsageError::MissingValue), resolve_arguments(Some("n"), None, &none));
    assert_eq!(
        Ok(Invocation { mode: InputMode::Now, format: OutputFormat::Seconds }),
        resolve_arguments(None, None, &none)
    );
    assert_eq!(
        Ok(Invocation { mode: InputMode::Now, format: OutputFormat::Seconds }),
        resolve_arguments(Some("now"), None, &none)
    );
}

#[test]
fn input_mode_keywords() {
    assert_eq!(parse_input_mode("now"), Ok(InputMode::Now));
    assert_eq!(parse_input_mode("secs"), Ok(InputMode::Seconds));
    assert_eq!(parse_input_mode("s"), Ok(InputMode::Seconds));
    assert_eq!(parse_input_mode("millis"), Ok(InputMode::Millis));
    assert_eq!(parse_input_mode("m"), Ok(InputMode::Millis));
    assert_eq!(parse_input_mode("nanos"), Ok(InputMode::Nanos));
    assert_eq!(parse_input_mode("n"), Ok(InputMode::Nanos));
    for k in ["", "Secs", "sec", "nowx", "hours"] {
        assert_eq!(parse_input_mode(k), Err(UsageError::UnknownInputMode));
    }
    let none = OutputFlags { millis: false, nanos: false, rfc2822: false, rfc3339: false };
    assert_eq!(Err(UsageError::UnknownInputMode), resolve_arguments(Some("days"), Some("1"), &none));
}

#[test]
fn full_invocation() {
    let flags = flags_of(vec!["unixtime", "--rfc2822"]);
    assert!(flags.rfc2822);
    assert_eq!(
        Ok(Invocation { mode: InputMode::Millis, format: OutputFormat::Rfc2822 }),
        resolve_arguments(Some("m"), Some("1627497005123"), &flags)
    );
}

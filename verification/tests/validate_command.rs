use selfie::adapters::clap_adapter::PackageSubcommands;
use selfie::adapters::output_buffer::{split_stream_data, trim_end_str, CommandOutputBuffer, OutputChunk, StreamLine};
use selfie::domain::validation::{ValidationErrorCategory, ValidationIssue, ValidationResult};
use selfie::package_validate_command::{ValidateCommand, ValidateCommandResult};
use selfie::package_validator::PackageValidatorError;

#[test]
fn validate_command_target() {
    let cmd = PackageSubcommands::Validate { package_name: "rg".to_string(), package_path: Some("/p/rg.yaml".to_string()) };
    let t = ValidateCommand::target(&cmd).unwrap();
    assert_eq!(t.package_name, "rg");
    assert_eq!(t.package_path.as_deref(), Some("/p/rg.yaml"));
    assert_eq!(ValidateCommand::progress_message(&t), "Validating package 'rg'");

    match ValidateCommand::target(&PackageSubcommands::List) {
        Err(ValidateCommandResult::Error(m)) => assert_eq!(m, "Invalid command. Expected 'validate <package-name>'"),
        _ => panic!("expected an error"),
    }
}

#[test]
fn validate_command_valid_and_invalid() {
    let command = ValidateCommand::new(false, false);
    let ok = ValidationResult::new("fine");
    let (result, end) = command.finish(Ok(ok), None);
    match result {
        ValidateCommandResult::Valid(report) => assert_eq!(report, "✓ Package 'fine' is valid\n"),
        other => panic!("unexpected {:?}", other),
    }
    assert_eq!(end.message, "Validation successful");
    assert!(end.succeeded);

    let mut bad = ValidationResult::new("bad");
    bad.add_issue(ValidationIssue::error(ValidationErrorCategory::RequiredField, "name", "Package name is required", None, None));
    let (result, end) = command.finish(Ok(bad), None);
    match result {
        ValidateCommandResult::Invalid(report) => assert!(report.contains("Validation failed")),
        other => panic!("unexpected {:?}", other),
    }
    assert_eq!(end.message, "Validation failed");
    assert!(!end.succeeded);
}

#[test]
fn validate_command_errors() {
    let command = ValidateCommand::new(false, false);
    let (result, end) = command.finish(Err(PackageValidatorError::PackageNotFound("rg".to_string())), None);
    match result {
        ValidateCommandResult::Error(m) => assert_eq!(
            m,
            "Package 'rg' not found\n\nVerify the package name and make sure the package file exists in the package directory."
        ),
        other => panic!("unexpected {:?}", other),
    }
    assert_eq!(end.message, "Validation error: Package not found: rg");

    let (result, _) = command.finish(Err(PackageValidatorError::MultiplePackagesFound("rg".to_string())), None);
    match result {
        ValidateCommandResult::Error(m) => assert_eq!(
            m,
            "Multiple package files found for 'rg'\n\nUse the --package-path flag to specify which file to validate."
        ),
        other => panic!("unexpected {:?}", other),
    }

    let (result, _) = command.finish(Err(PackageValidatorError::ParseError("bad yaml".to_string())), None);
    match result {
        ValidateCommandResult::Error(m) => assert_eq!(m, "Error: Package parse error: bad yaml"),
        other => panic!("unexpected {:?}", other),
    }
}

#[test]
fn output_buffer_captures_and_displays() {
    let mut b = CommandOutputBuffer::new(2, true);
    let shown = b.process_chunk(OutputChunk::Stdout("hello  \n".to_string()));
    assert_eq!(shown, Some(OutputChunk::Stdout("  stdout: hello".to_string())));
    let shown = b.process_chunk(OutputChunk::Stderr("oops\t".to_string()));
    assert_eq!(shown, Some(OutputChunk::Stderr("  stderr: oops".to_string())));
    b.process_chunk(OutputChunk::Stdout("world".to_string()));
    assert_eq!(b.stdout(), "hello\nworld\n");
    assert_eq!(b.stderr(), "oops\n");

    let mut quiet = CommandOutputBuffer::new(0, false);
    assert_eq!(quiet.process_chunk(OutputChunk::Stdout("x".to_string())), None);
    assert_eq!(quiet.stdout(), "x\n");
}

#[test]
fn output_buffer_trim_end_matches_std() {
    for s in ["a b \t\r\n", "  ", "", "x\u{3000}\u{a0}", "ünï  ", "a\u{200b}"] {
        assert_eq!(trim_end_str(s), s.trim_end());
    }
}

fn lines(v: Vec<StreamLine>) -> Vec<(bool, String)> {
    v.into_iter()
        .map(|l| match l {
            StreamLine::Complete(t) => (true, t),
            StreamLine::Partial(t) => (false, t),
        })
        .collect()
}

#[test]
fn stream_split_lines_across_reads() {
    let mut partial = String::new();
    let first = lines(split_stream_data(&mut partial, "hello\nwor"));
    assert_eq!(first, vec![(true, "hello".to_string()), (false, "wor".to_string())]);
    assert_eq!(partial, "wor");
    let second = lines(split_stream_data(&mut partial, "ld\n"));
    assert_eq!(second, vec![(true, "world".to_string())]);
    assert_eq!(partial, "");
}

#[test]
fn stream_split_empty_lines_and_partials() {
    let mut partial = String::new();
    let got = lines(split_stream_data(&mut partial, "a\n\nb\n"));
    assert_eq!(got, vec![(true, "a".to_string()), (true, String::new()), (true, "b".to_string())]);
    assert_eq!(partial, "");

    let mut partial = "x".to_string();
    let got = lines(split_stream_data(&mut partial, "abc"));
    assert_eq!(got, vec![(false, "xabc".to_string())]);
    assert_eq!(partial, "xabc");

    let mut partial = "x".to_string();
    let got = lines(split_stream_data(&mut partial, "\nabc"));
    assert_eq!(got, vec![(false, "xabc".to_string())]);
    assert_eq!(partial, "xabc");
}

#[test]
fn output_buffer_waits_for_complete_lines() {
    let mut b = CommandOutputBuffer::new(0, true);
    assert_eq!(b.process_chunk(OutputChunk::StdoutPartial("par".to_string())), None);
    assert_eq!(b.stdout(), "");
}

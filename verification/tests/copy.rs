use brix::command::copy::{CopyCommand, CopyParams};
use brix::command::overwrite::OverwritableCommand;
use brix::command::{Command, ProcessedCommandParams};
use brix::errors::BrixErrorKind;

fn args(source: Option<&str>, destination: Option<&str>) -> ProcessedCommandParams {
    ProcessedCommandParams {
        source: source.map(String::from),
        destination: destination.map(String::from),
        overwrite: None,
        search: None,
        replace: None,
        commands: None,
        stdout: None,
        context: None,
    }
}

#[test]
fn valid_param() {
    let command = CopyCommand::new();
    assert!(command.from(args(Some(""), None)).is_err());
}

#[test]
fn run_invalid_param_dest() {
    let command = CopyCommand::new();
    let error = command.from(args(Some(""), None)).unwrap_err();
    assert_eq!(error.missing_fields, ["destination"]);
}

#[test]
fn run_invalid_param_src() {
    let command = CopyCommand::new();
    let error = command.from(args(None, Some(""))).unwrap_err();
    assert_eq!(error.missing_fields, ["source"]);
    let error = error.into_error();
    assert_eq!(error.kind, Some(BrixErrorKind::Validation));
    assert_eq!(error.message, "\nField 'source' is required!");
}

#[test]
fn from_valid() {
    let command = CopyCommand::new();
    assert_eq!(
        command.from(args(Some(""), Some(""))).unwrap(),
        CopyParams { source: Default::default(), destination: Default::default(), overwrite: None }
    );
}

#[test]
fn invalid() {
    let command = CopyCommand::new();
    let error = command.from(args(None, None)).err().unwrap();
    let mut vec = error.missing_fields.clone();
    vec.sort();
    assert_eq!(vec, ["destination", "source"]);
    assert_eq!(
        error.into_error().message,
        "\nField 'source' is required!\nField 'destination' is required!"
    );
}

#[test]
fn copy_name() {
    assert_eq!(CopyCommand::new().name(), "copy");
}

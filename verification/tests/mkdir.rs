use brix::command::mkdir::MkdirCommand;
use brix::command::ProcessedCommandParams;
use brix::errors::BrixErrorKind;

fn empty_params() -> ProcessedCommandParams {
    ProcessedCommandParams {
        source: None,
        destination: None,
        overwrite: None,
        search: None,
        replace: None,
        commands: None,
        stdout: None,
        context: None,
    }
}

#[test]
fn from_nothing() {
    let command = MkdirCommand::new();
    let error = command.run(empty_params()).unwrap_err();
    assert_eq!(error.kind.unwrap(), BrixErrorKind::Validation);
}

fn planned(destination: &str) -> String {
    let command = MkdirCommand::new();
    let mut params = empty_params();
    params.destination = Some(format!("src/command/mkdir/temp/{}", destination));
    command.run(params).unwrap()
}

#[test]
fn run_basic() {
    assert_eq!(planned("basic"), "src/command/mkdir/temp/basic");
}

#[test]
fn nested() {
    assert_eq!(planned("nested/one/two"), "src/command/mkdir/temp/nested/one/two");
}

#[test]
fn multiple_stages() {
    assert_eq!(planned("multiple_stages"), "src/command/mkdir/temp/multiple_stages");
    assert_eq!(
        planned("multiple_stages/next"),
        "src/command/mkdir/temp/multiple_stages/next"
    );
}

#[test]
fn in_parent_dir() {
    assert_eq!(planned("../in_parent"), "src/command/mkdir/temp/../in_parent");
}

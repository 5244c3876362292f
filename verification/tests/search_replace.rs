use brix::command::search_replace::{ReplaceAction, SearchReplaceCommand, SearchReplaceParams};
use brix::command::ProcessedCommandParams;
use brix::errors::BrixErrorKind;

fn args(
    destination: Option<&str>,
    search: Option<&str>,
    replace: Option<&str>,
) -> ProcessedCommandParams {
    ProcessedCommandParams {
        source: None,
        destination: destination.map(String::from),
        overwrite: None,
        search: search.map(String::from),
        replace: replace.map(String::from),
        commands: None,
        stdout: None,
        context: None,
    }
}

fn assert_validation(args: ProcessedCommandParams, missing: &[&str]) {
    let command = SearchReplaceCommand::new();
    match command.run(&args, None) {
        ReplaceAction::Fail { error } => {
            assert_eq!(error.kind.unwrap(), BrixErrorKind::Validation);
            let lines: Vec<String> =
                missing.iter().map(|f| format!("\nField '{}' is required!", f)).collect();
            assert_eq!(error.message, lines.concat());
        }
        other => panic!("{:?}", other),
    }
    let error = command.from(args).unwrap_err();
    let names: Vec<&str> = error.missing_fields.iter().map(|f| f.as_str()).collect();
    assert_eq!(names, missing);
    assert_eq!(error.into_error().kind.unwrap(), BrixErrorKind::Validation);
}

#[test]
fn invalid_nothing() {
    assert_validation(args(None, None, None), &["destination", "search", "replace"]);
}

#[test]
fn invalid_destination() {
    assert_validation(args(Some(""), None, None), &["search", "replace"]);
}

#[test]
fn search() {
    assert_validation(args(None, Some(""), None), &["destination", "replace"]);
}

#[test]
fn replace() {
    assert_validation(args(None, None, Some("")), &["destination", "search"]);
}

#[test]
fn destination_search() {
    assert_validation(args(Some(""), Some(""), None), &["replace"]);
}

#[test]
fn destination_replace() {
    assert_validation(args(Some(""), None, Some("")), &["search"]);
}

#[test]
fn search_replace() {
    assert_validation(args(None, Some(""), Some("")), &["destination"]);
}

#[test]
fn search_replace_valid_params() {
    let command = SearchReplaceCommand::new();
    let params = command.from(args(Some(""), Some(""), Some(""))).unwrap();
    assert_eq!(
        params,
        SearchReplaceParams {
            destination: String::new(),
            search: String::new(),
            replace: String::new(),
        }
    );
}

fn run(path: &str, contents: &str, search: &str, replace: &str) -> String {
    let command = SearchReplaceCommand::new();
    let destination = format!("src/command/search_replace/{}", path);
    let args = args(Some(&destination), Some(search), Some(replace));
    match command.run(&args, None) {
        ReplaceAction::Read { path } => assert_eq!(path, destination),
        other => panic!("{:?}", other),
    }
    match command.run(&args, Some(contents)) {
        ReplaceAction::Write { path, contents } => {
            assert_eq!(path, destination);
            contents
        }
        other => panic!("{:?}", other),
    }
}

#[test]
fn basic() {
    assert_eq!(run("basic.txt", "es\n", "es", "ES"), "ES\n");
}

#[test]
fn empty() {
    assert_eq!(run("empty.txt", "", "foo", "bar"), "");
}

#[test]
fn no_matches() {
    assert_eq!(
        run("no_matches.txt", "Lorem ipsum dolor sit amet\n", "z", "foo"),
        "Lorem ipsum dolor sit amet\n"
    );
}

#[test]
fn basic_regex() {
    assert_eq!(
        run("basic_regex.txt", "abcd239ef7gh29ij39293klmno\n", "[a-zA-Z]", "0"),
        "00002390070029003929300000\n"
    );
}

#[test]
fn full_match() {
    assert_eq!(run("full_match_one.txt", "59023485\n", "^[0-9]{10}\\n$", "!"), "59023485\n");
    assert_eq!(run("full_match_two.txt", "5902348512\n", "^[0-9]{10}\\n$", "!"), "!");
}

#[test]
fn diff_extension() {
    assert_eq!(
        run("diff_extension.peb", "foo foo foo foo foo foo\n", "foo", "bar"),
        "bar bar bar bar bar bar\n"
    );
}

#[test]
fn non_english() {
    assert_eq!(
        run(
            "non_english.txt",
            "это не английские буквы\n",
            "это не английские буквы\n",
            "这些不是英文字母"
        ),
        "这些不是英文字母"
    );
}

#[test]
fn capture_groups_are_expanded() {
    assert_eq!(run("groups.txt", "john smith\n", "(\\w+) (\\w+)", "$2 $1"), "smith john\n");
}

#[test]
fn bad_pattern_is_a_pattern_error() {
    let command = SearchReplaceCommand::new();
    let params = command.from(args(Some("a.txt"), Some("(unclosed"), Some("x"))).unwrap();
    let error = command.apply(&params, "text").unwrap_err();
    assert_eq!(error.kind, Some(BrixErrorKind::Pattern));
    assert!(error.message.contains("parenthesis"), "{}", error.message);
    match command.run(&args(Some("a.txt"), Some("(unclosed"), Some("x")), Some("text")) {
        ReplaceAction::Fail { error } => assert_eq!(error.kind, Some(BrixErrorKind::Pattern)),
        other => panic!("{:?}", other),
    }
}

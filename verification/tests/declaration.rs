use brix::config::{Config, LogLevel};
use brix::declaration::{
    context_field, decode, decode_entry, decode_params, find, flag_field, text_field,
    texts_field, Node,
};
use brix::dispatch::CommandKind;
use brix::errors::BrixErrorKind;
use brix::loader::{Candidate, ConfigLoader, ProcessFailure};
use brix::parsers::{ConfigParser, YamlConfigParser};
use brix::processor::ProcessorCore;

fn text(s: &str) -> Node {
    Node::Text(s.to_string())
}

fn map(entries: Vec<(&str, Node)>) -> Node {
    Node::Mapping(entries.into_iter().map(|(k, v)| (text(k), v)).collect())
}

fn entries(node: Node) -> Vec<(Node, Node)> {
    match node {
        Node::Mapping(entries) => entries,
        other => panic!("{:?}", other),
    }
}

const DECLARATION: &str = "
context:
  module: widget
  version: 2
commands:
  - mkdir:
      destination: temp
  - template:
      source: simple_context.hbs
      destination: temp/{{module}}_output.txt
      overwrite: true
      context:
        word: templated
  - search_replace:
      destination: temp/{{module}}_output.txt
      search: text\\n
      replace: \"TEXT v{{version}}\"
  - exec:
      commands:
        - echo {{module}}
        - 'true'
      stdout: false
";

#[test]
fn yaml_declaration_is_read() {
    let declaration = YamlConfigParser {}.parse(DECLARATION).unwrap();
    let context = declaration.context.as_ref().unwrap();
    assert_eq!(context.get("module"), Some("widget".to_string()));
    assert_eq!(context.get("version"), Some("2".to_string()));
    let names: Vec<&str> = declaration.commands.iter().map(|c| c.0.as_str()).collect();
    assert_eq!(names, ["mkdir", "template", "search_replace", "exec"]);
    let mkdir = &declaration.commands[0].1;
    assert_eq!(mkdir.destination, Some("temp".to_string()));
    assert_eq!(mkdir.source, None);
    assert_eq!(mkdir.overwrite, None);
    assert!(mkdir.context.is_none());
    let template = &declaration.commands[1].1;
    assert_eq!(template.source, Some("simple_context.hbs".to_string()));
    assert_eq!(template.destination, Some("temp/{{module}}_output.txt".to_string()));
    assert_eq!(template.overwrite, Some(true));
    assert_eq!(template.context.as_ref().unwrap().get("word"), Some("templated".to_string()));
    let replace = &declaration.commands[2].1;
    assert_eq!(replace.search, Some("text\\n".to_string()));
    assert_eq!(replace.replace, Some("TEXT v{{version}}".to_string()));
    let exec = &declaration.commands[3].1;
    assert_eq!(exec.commands, Some(vec!["echo {{module}}".to_string(), "true".to_string()]));
    assert_eq!(exec.stdout, Some(false));
}

#[test]
fn yaml_errors_are_parse_errors() {
    let parser = YamlConfigParser {};
    for broken in [
        "commands: [",
        "",
        "context: {a: b}",
        "commands: {copy: {}}",
        "commands:\n  - copy: {}\n    mkdir: {}",
        "commands:\n  - copy: {source: [a]}",
        "commands:\n  - copy: {overwrite: maybe}",
        "commands:\n  - exec: {commands: echo}",
        "commands:\n  - exec: {commands: [[echo]]}",
        "commands:\n  - copy: {context: {a: {b: c}}}",
        "commands:\n  - copy: text",
        "commands:\n  - 3: {}",
        "context: [a]\ncommands: []",
        "commands:\n  - copy: {source: !tag a}",
    ] {
        let error = parser.parse(broken).unwrap_err();
        assert_eq!(error.kind, Some(BrixErrorKind::Parse), "{}", broken);
        assert!(!error.message.is_empty());
    }
    assert_eq!(parser.parse("commands: []").unwrap().commands.len(), 0);
    let lenient = parser.parse("commands:\n  - copy: {source: 3, other: [x], stdout: ~}").unwrap();
    assert_eq!(lenient.commands[0].1.source, Some("3".to_string()));
    assert_eq!(lenient.commands[0].1.stdout, None);
}

#[test]
fn fields_are_read_by_kind() {
    let node = map(vec![
        ("name", text("x")),
        ("count", Node::Number("12".to_string())),
        ("flag", Node::Bool(true)),
        ("none", Node::Null),
        ("list", Node::List(vec![text("a"), Node::Number("1".to_string())])),
        ("mixed", Node::List(vec![text("a"), Node::Bool(false)])),
        ("map", map(vec![("k", text("v")), ("n", Node::Number("7".to_string())), ("k", text("w"))])),
        ("name", text("second")),
    ]);
    let entries = entries(node);
    assert!(matches!(find(&entries, "name"), Some(Node::Text(s)) if s == "x"));
    assert!(find(&entries, "absent").is_none());
    assert_eq!(text_field(&entries, "name").unwrap(), Some("x".to_string()));
    assert_eq!(text_field(&entries, "count").unwrap(), Some("12".to_string()));
    assert_eq!(text_field(&entries, "none").unwrap(), None);
    assert_eq!(text_field(&entries, "absent").unwrap(), None);
    let error = text_field(&entries, "flag").unwrap_err();
    assert_eq!(error.kind, Some(BrixErrorKind::Parse));
    assert_eq!(error.message, "'flag' must be a string");
    assert_eq!(flag_field(&entries, "flag").unwrap(), Some(true));
    assert_eq!(flag_field(&entries, "absent").unwrap(), None);
    assert_eq!(flag_field(&entries, "name").unwrap_err().message, "'name' must be true or false");
    assert_eq!(
        texts_field(&entries, "list").unwrap(),
        Some(vec!["a".to_string(), "1".to_string()])
    );
    assert_eq!(
        texts_field(&entries, "mixed").unwrap_err().message,
        "'mixed' must be a list of strings"
    );
    assert_eq!(texts_field(&entries, "name").unwrap_err().kind, Some(BrixErrorKind::Parse));
    let context = context_field(&entries, "map").unwrap().unwrap();
    assert_eq!(context.len(), 2);
    assert_eq!(context.get("k"), Some("w".to_string()));
    assert_eq!(context.get("n"), Some("7".to_string()));
    assert_eq!(
        context_field(&entries, "list").unwrap_err().message,
        "'list' must be a map of strings"
    );
    assert!(context_field(&entries, "absent").unwrap().is_none());
}

#[test]
fn entries_and_declarations_are_read_by_shape() {
    let params = map(vec![("source", text("a")), ("unknown", Node::Tagged)]);
    assert_eq!(decode_params(&params).unwrap().source, Some("a".to_string()));
    assert_eq!(decode_params(&Node::Null).unwrap_err().kind, Some(BrixErrorKind::Parse));
    let entry = map(vec![("copy", map(vec![("destination", text("b"))]))]);
    let (name, decoded) = decode_entry(&entry).unwrap();
    assert_eq!(name, "copy");
    assert_eq!(decoded.destination, Some("b".to_string()));
    assert!(decode_entry(&map(vec![])).is_err());
    assert!(decode_entry(&Node::List(vec![])).is_err());
    let declaration = map(vec![("commands", Node::List(vec![entry]))]);
    let config = decode(&declaration).unwrap();
    assert!(config.context.is_none());
    assert_eq!(config.commands.len(), 1);
    assert!(decode(&map(vec![("context", map(vec![]))])).is_err());
    assert!(decode(&Node::List(vec![])).is_err());
}

fn config() -> Config {
    Config {
        language: "java".to_string(),
        config_name: "controller".to_string(),
        project: "shop".to_string(),
        module: "cart".to_string(),
        config_dir: None,
        workdir: "/work".to_string(),
        home_dir: None,
        log_level: LogLevel::Off,
    }
}

fn candidate(file_name: &str, extension: Option<&str>) -> Candidate {
    Candidate {
        path: format!("/cfg/java/{}", file_name),
        parent: "/cfg/java".to_string(),
        file_name: file_name.to_string(),
        extension: extension.map(String::from),
    }
}

#[test]
fn a_declaration_runs_from_its_text() {
    let config = config();
    let processor = ProcessorCore::new();
    let mut loader = ConfigLoader::new(vec![YamlConfigParser {}], &config);
    loader.load(vec![candidate("controller.yaml", Some("yaml"))]).unwrap();
    let list = loader.run(DECLARATION, &processor).unwrap();
    let kinds: Vec<CommandKind> = list.iter().map(|c| c.0).collect();
    assert_eq!(
        kinds,
        [CommandKind::Mkdir, CommandKind::Template, CommandKind::SearchReplace, CommandKind::Exec]
    );
    assert_eq!(list[0].1.destination, Some("/work/temp".to_string()));
    assert_eq!(list[1].1.source, Some("/cfg/java/simple_context.hbs".to_string()));
    assert_eq!(list[1].1.destination, Some("/work/temp/widget_output.txt".to_string()));
    assert_eq!(list[1].1.context.as_ref().unwrap().get("word"), Some("templated".to_string()));
    assert_eq!(list[2].1.search, Some("text\n".to_string()));
    assert_eq!(list[2].1.replace, Some("TEXT v2".to_string()));
    assert_eq!(list[3].1.commands, Some(vec!["echo widget".to_string(), "true".to_string()]));

    match loader.run("commands: [", &processor).unwrap_err() {
        ProcessFailure::Failed { error } => assert_eq!(error.kind, Some(BrixErrorKind::Parse)),
        other => panic!("{:?}", other),
    }
    match loader.run("commands:\n  - shred: {}", &processor).unwrap_err() {
        ProcessFailure::Unknown { name } => assert_eq!(name, "shred"),
        other => panic!("{:?}", other),
    }
    assert_eq!(loader.parse("commands: []").unwrap().commands.len(), 0);
}

#[test]
fn a_declaration_without_a_parser_does_not_run() {
    let config = config();
    let processor = ProcessorCore::new();
    let loader = ConfigLoader::new(vec![YamlConfigParser {}], &config);
    match loader.run(DECLARATION, &processor).unwrap_err() {
        ProcessFailure::Failed { error } => {
            assert_eq!(error.kind, Some(BrixErrorKind::UnsupportedFormat))
        }
        other => panic!("{:?}", other),
    }
}

use brix::command::copy::CopyParams;
use brix::command::copy::CopyCommand;
use brix::command::overwrite::{
    step, OverwritableCommand, Probe, WriteAction, WriteEvent, WriteStage,
};
use brix::command::template::TemplateCommand;
use brix::config::{Config, LogLevel};
use brix::context::{cli_config_to_map, ContextMap, StdContext};
use brix::dispatch::{dispatch, lookup, supported_commands, unknown_operation, CommandKind};
use brix::errors::{BrixError, BrixErrorKind};
use brix::loader::{
    unescape, Candidate, ConfigLoader, LoadStep, ProcessFailure, RawCommandParams, RawConfig,
};
use brix::parsers::{ConfigParser, YamlConfigParser};
use brix::processor::{has_partial, ProcessorCore};
use brix::resolver::resolve;

fn context(pairs: &[(&str, &str)]) -> StdContext {
    let mut context = StdContext::new();
    for (key, value) in pairs {
        context.insert(key.to_string(), value.to_string());
    }
    context
}

fn config() -> Config {
    Config {
        language: "java".to_string(),
        config_name: "controller".to_string(),
        project: "shop".to_string(),
        module: "cart".to_string(),
        config_dir: None,
        workdir: "/work".to_string(),
        home_dir: Some("/home/me".to_string()),
        log_level: LogLevel::Off,
    }
}

fn raw() -> RawCommandParams {
    RawCommandParams {
        source: None,
        destination: None,
        overwrite: None,
        search: None,
        replace: None,
        commands: None,
        stdout: None,
        context: None,
    }
}

fn candidate(parent: &str, file_name: &str) -> Candidate {
    Candidate {
        path: format!("{}/{}", parent, file_name),
        parent: parent.to_string(),
        file_name: file_name.to_string(),
        extension: file_name.rsplit_once('.').map(|(_, e)| e.to_string()),
    }
}

fn loaded<'a>(config: &'a Config) -> ConfigLoader<'a, YamlConfigParser> {
    let mut loader = ConfigLoader::new(vec![YamlConfigParser {}], config);
    match loader.load(vec![candidate("/cfg/java", "controller.brix.yml")]).unwrap() {
        LoadStep::Chosen { path } => assert_eq!(path, "/cfg/java/controller.brix.yml"),
        LoadStep::Select { .. } => panic!("one file only"),
    }
    loader
}

#[test]
fn cli_tier_holds_language_module_project() {
    let map = cli_config_to_map(&config());
    assert_eq!(map.len(), 3);
    assert_eq!(map.get("language"), Some("java".to_string()));
    assert_eq!(map.get("module"), Some("cart".to_string()));
    assert_eq!(map.get("project"), Some("shop".to_string()));
    assert_eq!(map.get("config_name"), None);
}

#[test]
fn merge_prefers_local_over_global_over_cli() {
    let tiers = ContextMap {
        cli_positional: context(&[("a", "cli"), ("b", "cli"), ("c", "cli")]),
        config_global: context(&[("b", "global"), ("c", "global"), ("d", "global")]),
        command_local: context(&[("c", "local"), ("e", "local")]),
    };
    let merged = tiers.do_merge();
    assert_eq!(merged.len(), 5);
    assert_eq!(merged.get("a"), Some("cli".to_string()));
    assert_eq!(merged.get("b"), Some("global".to_string()));
    assert_eq!(merged.get("c"), Some("local".to_string()));
    assert_eq!(merged.get("d"), Some("global".to_string()));
    assert_eq!(merged.get("e"), Some("local".to_string()));
    assert!(!merged.contains_key("f"));
}

#[test]
fn context_insert_replaces_and_keeps_order() {
    let mut c = context(&[("x", "1"), ("y", "2")]);
    c.insert("x".to_string(), "3".to_string());
    assert_eq!(c.len(), 2);
    assert_eq!(c.key_at(0), "x");
    assert_eq!(c.value_at(0), "3");
    assert_eq!(c.key_at(1), "y");
    let copy = c.duplicate();
    assert_eq!(copy.get("x"), Some("3".to_string()));
    assert_eq!(copy.get("y"), Some("2".to_string()));
}

#[test]
fn expansion_resolves_references_between_values() {
    let processor = ProcessorCore::new();
    let merged = context(&[("module", "widget"), ("path", "temp/{{module}}")]);
    let expanded = merged.expand(&processor).unwrap();
    assert_eq!(expanded.get("path"), Some("temp/widget".to_string()));
    assert_eq!(expanded.get("module"), Some("widget".to_string()));
    let again = expanded.expand(&processor).unwrap();
    assert_eq!(again.get("path"), Some("temp/widget".to_string()));
    assert_eq!(again.get("module"), Some("widget".to_string()));
    assert_eq!(again.len(), 2);
}

#[test]
fn one_pass_resolves_one_step_of_a_chain() {
    let processor = ProcessorCore::new();
    let merged = context(&[("a", "{{b}}"), ("b", "{{c}}"), ("c", "x")]);
    let once = merged.expand_once(&processor).unwrap();
    assert_eq!(once.get("a"), Some("{{c}}".to_string()));
    assert_eq!(once.get("b"), Some("x".to_string()));
    assert_eq!(once.key_at(0), "a");
    assert_eq!(once.key_at(1), "b");
    assert_eq!(once.key_at(2), "c");
}

#[test]
fn expansion_follows_chains_to_the_end_and_is_idempotent() {
    let processor = ProcessorCore::new();
    let merged = context(&[
        ("a", "{{b}}"),
        ("b", "{{c}}"),
        ("c", "{{d}}"),
        ("d", "{{e}}"),
        ("e", "x"),
    ]);
    let expanded = merged.expand(&processor).unwrap();
    for name in ["a", "b", "c", "d", "e"] {
        assert_eq!(expanded.get(name), Some("x".to_string()));
    }
    let again = expanded.expand(&processor).unwrap();
    assert!(again.same_pairs(&expanded));
    let once = expanded.expand_once(&processor).unwrap();
    assert!(once.same_pairs(&expanded));
}

#[test]
fn expansion_that_does_not_come_to_rest_fails() {
    let processor = ProcessorCore::new();
    let growing = context(&[("a", "<{{a}}>")]);
    let error = growing.expand(&processor).unwrap_err();
    assert_eq!(error.kind, Some(BrixErrorKind::Template));
    assert_eq!(error.message, "the values of the context refer to each other without end");
    let circle = context(&[("a", "{{b}}"), ("b", "{{a}}")]);
    let rest = circle.expand(&processor).unwrap();
    assert_eq!(rest.get("a"), Some("{{a}}".to_string()));
    assert_eq!(rest.get("b"), Some("{{b}}".to_string()));
}

#[test]
fn contexts_are_compared_entry_by_entry() {
    let a = context(&[("x", "1"), ("y", "2")]);
    assert!(a.same_pairs(&context(&[("x", "1"), ("y", "2")])));
    assert!(!a.same_pairs(&context(&[("y", "2"), ("x", "1")])));
    assert!(!a.same_pairs(&context(&[("x", "1"), ("y", "3")])));
    assert!(!a.same_pairs(&context(&[("x", "1")])));
    assert_eq!(
        a.to_pairs(),
        vec![("x".to_string(), "1".to_string()), ("y".to_string(), "2".to_string())]
    );
}

#[test]
fn templates_with_partials_are_refused() {
    let processor = ProcessorCore::new();
    for text in [
        "{{#*inline \"a\"}}{{> a}}{{/inline}}{{> a}}",
        "{{> a}}",
        "{{>a}}",
        "{{~> a}}",
        "{{ > a}}",
        "{{#> a}}x{{/a}}",
        "{{~#\t\n> a}}",
        "{{* d}}",
        "{{#*inline \"a\"}}x{{/inline}}",
        "x {{{> a}}}",
    ] {
        assert!(has_partial(text), "{}", text);
        let error = processor.process(text, &context(&[])).unwrap_err();
        assert_eq!(error.kind, Some(BrixErrorKind::Template));
        assert_eq!(error.message, "partials and decorators are not supported");
    }
    for text in ["", "{{a}}", "{{#if a}}>{{/if}}", "{ {> a}}", "{{a > b}}", "{{", "{{~", "a > b * c"] {
        assert!(!has_partial(text), "{}", text);
    }
    let merged = context(&[("a", "{{> a}}")]);
    let error = merged.expand(&processor).unwrap_err();
    assert_eq!(error.message, "'a': partials and decorators are not supported");
}

#[test]
fn expansion_error_names_the_value() {
    let processor = ProcessorCore::new();
    let merged = context(&[("fine", "x"), ("broken", "{{#if}}")]);
    let error = merged.expand(&processor).unwrap_err();
    assert_eq!(error.kind, Some(BrixErrorKind::Template));
    assert!(error.message.starts_with("'broken': "));
    assert!(error.message.len() > "'broken': ".len());
}

#[test]
fn resolve_merges_then_expands() {
    let processor = ProcessorCore::new();
    let tiers = ContextMap {
        cli_positional: context(&[("module", "cart")]),
        config_global: context(&[("module", "widget"), ("dir", "src/{{module}}")]),
        command_local: context(&[("file", "{{dir}}/{{to-upper module}}.txt")]),
    };
    let resolved = resolve(&tiers, &processor).unwrap();
    assert_eq!(resolved.get("module"), Some("widget".to_string()));
    assert_eq!(resolved.get("dir"), Some("src/widget".to_string()));
    assert_eq!(resolved.get("file"), Some("src/widget/WIDGET.txt".to_string()));
}

#[test]
fn dispatch_ignores_case() {
    assert_eq!(dispatch("copy"), Some(CommandKind::Copy));
    assert_eq!(dispatch("EXEC"), Some(CommandKind::Exec));
    assert_eq!(dispatch("MkDir"), Some(CommandKind::Mkdir));
    assert_eq!(dispatch("Search_Replace"), Some(CommandKind::SearchReplace));
    assert_eq!(dispatch("template"), Some(CommandKind::Template));
    assert_eq!(dispatch("move"), None);
    assert_eq!(lookup("COPY"), None);
    assert_eq!(
        supported_commands(),
        ["copy", "exec", "mkdir", "search_replace", "template"]
    );
    assert_eq!(CommandKind::SearchReplace.name(), "search and replace");
    assert_eq!(CommandKind::SearchReplace.key(), "search_replace");
}

#[test]
fn unknown_operation_messages() {
    let with = unknown_operation("copi", Some("copy"));
    assert_eq!(with.kind, Some(BrixErrorKind::UnknownOperation));
    assert_eq!(with.message, "command 'copi' not found... did you mean 'copy'?");
    let without = unknown_operation("frobnicate", None);
    assert_eq!(without.message, "command 'frobnicate' not found");
}

#[test]
fn unescape_reads_line_feeds_and_tabs() {
    assert_eq!(unescape("a\\nb\\tc"), "a\nb\tc");
    assert_eq!(unescape("\\\\n"), "\\\n");
    assert_eq!(unescape("plain"), "plain");
    assert_eq!(unescape("\\"), "\\");
}

#[test]
fn end_to_end_template_operation() {
    let config = config();
    let loader = loaded(&config);
    let processor = ProcessorCore::new();

    let mut declaration = RawConfig { context: Some(context(&[("module", "widget")])), commands: Vec::new() };
    let mut params = raw();
    params.source = Some("simple_context.hbs".to_string());
    params.destination = Some("temp/{{module}}_output.txt".to_string());
    params.context = Some(context(&[("word", "templated")]));
    declaration.commands.push(("template".to_string(), params));

    let mut list = loader.process(&declaration, &processor).unwrap();
    assert_eq!(list.len(), 1);
    let (kind, args) = list.pop().unwrap();
    assert_eq!(kind, CommandKind::Template);
    assert_eq!(args.source, Some("/cfg/java/simple_context.hbs".to_string()));
    assert_eq!(args.destination, Some("/work/temp/widget_output.txt".to_string()));
    let context = args.context.as_ref().unwrap();
    assert_eq!(context.get("module"), Some("widget".to_string()));
    assert_eq!(context.get("word"), Some("templated".to_string()));
    assert_eq!(context.get("language"), Some("java".to_string()));

    let command = TemplateCommand::new();
    let params = command.from(args).unwrap();
    assert_eq!(
        command.render(&params, "this is {{word}} text\n", &processor).unwrap(),
        "this is templated text\n"
    );
}

#[test]
fn process_keeps_the_declared_order_and_renders_every_string() {
    let config = config();
    let loader = loaded(&config);
    let processor = ProcessorCore::new();

    let mut declaration = RawConfig { context: None, commands: Vec::new() };
    let mut mkdir = raw();
    mkdir.destination = Some("/abs/{{project}}".to_string());
    declaration.commands.push(("MKDIR".to_string(), mkdir));
    let mut replace = raw();
    replace.destination = Some("{{module}}.txt".to_string());
    replace.search = Some("{{language}}\\n".to_string());
    replace.replace = Some("\\t{{to-upper module}}".to_string());
    declaration.commands.push(("search_replace".to_string(), replace));
    let mut exec = raw();
    exec.commands = Some(vec!["echo {{module}}".to_string(), "ls".to_string()]);
    exec.stdout = Some(false);
    declaration.commands.push(("exec".to_string(), exec));

    let list = loader.process(&declaration, &processor).unwrap();
    let kinds: Vec<CommandKind> = list.iter().map(|c| c.0).collect();
    assert_eq!(kinds, [CommandKind::Mkdir, CommandKind::SearchReplace, CommandKind::Exec]);
    assert_eq!(list[0].1.destination, Some("/abs/shop".to_string()));
    assert_eq!(list[1].1.destination, Some("/work/cart.txt".to_string()));
    assert_eq!(list[1].1.search, Some("java\n".to_string()));
    assert_eq!(list[1].1.replace, Some("\tCART".to_string()));
    assert_eq!(list[2].1.commands, Some(vec!["echo cart".to_string(), "ls".to_string()]));
    assert_eq!(list[2].1.stdout, Some(false));
    assert_eq!(list[2].1.source, None);
}

#[test]
fn process_stops_at_the_first_unknown_operation() {
    let config = config();
    let loader = loaded(&config);
    let processor = ProcessorCore::new();
    let mut declaration = RawConfig { context: None, commands: Vec::new() };
    declaration.commands.push(("copy".to_string(), raw()));
    declaration.commands.push(("copi".to_string(), raw()));
    declaration.commands.push(("nope".to_string(), raw()));
    match loader.process(&declaration, &processor).unwrap_err() {
        ProcessFailure::Unknown { name } => assert_eq!(name, "copi"),
        ProcessFailure::Failed { error } => panic!("{}", error.display()),
    }
}

#[test]
fn process_reports_the_field_that_does_not_render() {
    let config = config();
    let loader = loaded(&config);
    let processor = ProcessorCore::new();
    let mut declaration = RawConfig { context: None, commands: Vec::new() };
    let mut params = raw();
    params.destination = Some("{{#if}}".to_string());
    declaration.commands.push(("mkdir".to_string(), params));
    match loader.process(&declaration, &processor).unwrap_err() {
        ProcessFailure::Failed { error } => {
            assert_eq!(error.kind, Some(BrixErrorKind::Template));
            assert!(error.message.starts_with("'destination': "));
        }
        ProcessFailure::Unknown { name } => panic!("{}", name),
    }
}

#[test]
fn two_declarations_of_one_name_ask_for_a_selection() {
    let config = config();
    let mut loader = ConfigLoader::new(vec![YamlConfigParser {}], &config);
    let step = loader
        .load(vec![
            candidate("/cfg/java", "controller.yaml"),
            candidate("/cfg/java", "controller.txt"),
            candidate("/cfg/java", "controller.brix.yml"),
        ])
        .unwrap();
    match step {
        LoadStep::Select { names } => assert_eq!(names, ["controller.yaml", "controller.brix.yml"]),
        LoadStep::Chosen { path } => panic!("{}", path),
    }
    assert_eq!(loader.select(0).unwrap(), "/cfg/java/controller.yaml");
    assert_eq!(loader.parser_for().unwrap(), 0);
    assert_eq!(loader.select(1).unwrap(), "/cfg/java/controller.brix.yml");
    let error = loader.select(2).unwrap_err();
    assert_eq!(error.kind, Some(BrixErrorKind::Cli));
    assert_eq!(error.message, "no option selected!");
}

#[test]
fn unsupported_extension_is_named() {
    let config = config();
    let mut loader = ConfigLoader::new(vec![YamlConfigParser {}], &config);
    let error = loader.load(vec![candidate("/cfg", "controller.toml")]).unwrap_err();
    assert_eq!(error.kind, Some(BrixErrorKind::UnsupportedFormat));
    assert_eq!(error.message, "the file extension '.toml' is not supported for configs");
    assert_eq!(loader.parser_for().unwrap_err().kind, Some(BrixErrorKind::UnsupportedFormat));
    let error = loader.load(vec![]).unwrap_err();
    assert_eq!(error.kind, Some(BrixErrorKind::NotFound));
}

#[test]
fn yaml_parser_reads_yaml_and_yml() {
    let parser = YamlConfigParser {};
    assert_eq!(parser.extensions(), ["yaml", "yml"]);
    assert!(parser.matches("yaml"));
    assert!(parser.matches("yml"));
    assert!(!parser.matches("YAML"));
    assert!(!parser.matches("json"));
}

fn target(overwrite: Option<bool>) -> CopyParams {
    CopyParams {
        source: "from.txt".to_string(),
        destination: "out/to.txt".to_string(),
        overwrite,
    }
}

fn probe(source: bool, parent: bool, destination: bool) -> WriteEvent {
    WriteEvent::Probed(Probe {
        source_exists: source,
        parent: Some("out".to_string()),
        parent_exists: parent,
        destination_exists: destination,
    })
}

#[test]
fn an_overwritable_operation_runs_by_steps() {
    let command = CopyCommand::new();
    let existing = target(Some(false));
    let (stage, action) = command.run(&existing, WriteStage::Probing, probe(true, true, true));
    assert_eq!(stage, WriteStage::Finished);
    assert!(matches!(action, WriteAction::DoneSkipped));
    let fresh = target(None);
    let (stage, action) = command.run(&fresh, WriteStage::Probing, probe(true, true, false));
    assert_eq!(stage, WriteStage::Writing);
    assert!(matches!(action, WriteAction::Write));
}

#[test]
fn overwrite_true_always_writes() {
    let target = target(Some(true));
    let (stage, action) = step(&target, WriteStage::Probing, probe(true, true, true));
    assert_eq!(stage, WriteStage::Writing);
    assert!(matches!(action, WriteAction::Write));
    let (stage, action) = step(&target, stage, WriteEvent::Written);
    assert_eq!(stage, WriteStage::Finished);
    assert!(matches!(action, WriteAction::DoneWritten));
}

#[test]
fn overwrite_false_skips_what_exists() {
    let target = target(Some(false));
    let (stage, action) = step(&target, WriteStage::Probing, probe(true, true, true));
    assert_eq!(stage, WriteStage::Finished);
    assert!(matches!(action, WriteAction::DoneSkipped));
    let (stage, action) = step(&target, WriteStage::Probing, probe(true, true, false));
    assert_eq!(stage, WriteStage::Writing);
    assert!(matches!(action, WriteAction::Write));
}

#[test]
fn overwrite_unset_asks_and_no_skips() {
    let target = target(None);
    let (stage, action) = step(&target, WriteStage::Probing, probe(true, true, true));
    assert_eq!(stage, WriteStage::Asking);
    match action {
        WriteAction::Confirm { prompt } => assert_eq!(prompt, "overwrite 'out/to.txt'"),
        other => panic!("{:?}", other),
    }
    let (after_no, action) = step(&target, stage, WriteEvent::Answered(Some(false)));
    assert_eq!(after_no, WriteStage::Finished);
    assert!(matches!(action, WriteAction::DoneSkipped));
    let (after_failure, action) = step(&target, stage, WriteEvent::Answered(None));
    assert_eq!(after_failure, WriteStage::Finished);
    assert!(matches!(action, WriteAction::DoneSkipped));
    let (after_yes, action) = step(&target, stage, WriteEvent::Answered(Some(true)));
    assert_eq!(after_yes, WriteStage::Writing);
    assert!(matches!(action, WriteAction::Write));
}

#[test]
fn missing_source_fails_before_anything_is_made() {
    let target = target(Some(true));
    let (stage, action) = step(&target, WriteStage::Probing, probe(false, false, false));
    assert_eq!(stage, WriteStage::Finished);
    match action {
        WriteAction::Fail { error } => {
            assert_eq!(error.kind, Some(BrixErrorKind::Io));
            assert_eq!(error.message, "source 'from.txt' does not exist");
        }
        other => panic!("{:?}", other),
    }
}

#[test]
fn missing_parent_is_made_first() {
    let target = target(None);
    let (stage, action) = step(&target, WriteStage::Probing, probe(true, false, false));
    assert_eq!(stage, WriteStage::CreatingParent { destination_exists: false });
    match action {
        WriteAction::CreateDir { path } => assert_eq!(path, "out"),
        other => panic!("{:?}", other),
    }
    let (next, action) = step(&target, stage, WriteEvent::ParentCreated);
    assert_eq!(next, WriteStage::Writing);
    assert!(matches!(action, WriteAction::Write));
    let failed = WriteEvent::ParentFailed { path: "out".to_string(), reason: "denied".to_string() };
    match step(&target, stage, failed) {
        (WriteStage::Finished, WriteAction::Fail { error }) => {
            assert_eq!(error.kind, Some(BrixErrorKind::Io));
            assert_eq!(error.message, "unable to create 'out': denied");
        }
        other => panic!("{:?}", other),
    }
}

#[test]
fn write_failure_and_stray_events() {
    let target = target(None);
    let failed = WriteEvent::WriteFailed {
        error: BrixError { kind: Some(BrixErrorKind::Template), message: "bad tag".to_string() },
    };
    match step(&target, WriteStage::Writing, failed) {
        (WriteStage::Finished, WriteAction::Fail { error }) => {
            assert_eq!(error.kind, Some(BrixErrorKind::Template));
            assert_eq!(error.message, "bad tag");
        }
        other => panic!("{:?}", other),
    }
    match step(&target, WriteStage::Probing, WriteEvent::Written) {
        (WriteStage::Finished, WriteAction::Fail { error }) => {
            assert_eq!(error.kind, None);
            assert_eq!(error.message, "unexpected event");
        }
        other => panic!("{:?}", other),
    }
}

#[test]
fn errors_are_shown_with_their_kind() {
    assert_eq!(BrixError::with("plain").display(), "plain");
    let error = BrixError { kind: Some(BrixErrorKind::Io), message: "gone".to_string() };
    assert_eq!(error.display(), "IO error: gone");
    let error = BrixError { kind: Some(BrixErrorKind::Validation), message: "x".to_string() };
    assert_eq!(error.display(), "Validation error: x");
    assert_eq!(BrixErrorKind::Cli.label(), "CLI");
    assert_eq!(BrixErrorKind::Template.label(), "Template");
}

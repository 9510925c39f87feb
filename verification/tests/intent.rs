use rawcmd::{CommandSummary, FlagSummary, Intent, ParamSummary, ResourceSummary};

fn intent_with_args(args: Vec<String>) -> Intent {
    let command: CommandSummary = CommandSummary::with_name("", None, None, None, None);
    let supcommands: Vec<CommandSummary> = vec![];
    let subcommands: Vec<CommandSummary> = vec![];
    let flags: Vec<FlagSummary> = vec![];
    let params: Vec<ParamSummary> = vec![];
    let resources: Vec<ResourceSummary> = vec![];
    Intent::new(args, command, supcommands, subcommands, flags, params, resources)
}

fn intent_with_flags(flags: Vec<FlagSummary>) -> Intent {
    let args: Vec<String> = vec![];
    let command: CommandSummary = CommandSummary::with_name("", None, None, None, None);
    let supcommands: Vec<CommandSummary> = vec![];
    let subcommands: Vec<CommandSummary> = vec![];
    let params: Vec<ParamSummary> = vec![];
    let resources: Vec<ResourceSummary> = vec![];
    Intent::new(args, command, supcommands, subcommands, flags, params, resources)
}

fn intent_with_resources(resources: Vec<ResourceSummary>) -> Intent {
    let args: Vec<String> = vec![];
    let command: CommandSummary = CommandSummary::with_name("", None, None, None, None);
    let supcommands: Vec<CommandSummary> = vec![];
    let subcommands: Vec<CommandSummary> = vec![];
    let flags: Vec<FlagSummary> = vec![];
    let params: Vec<ParamSummary> = vec![];
    Intent::new(args, command, supcommands, subcommands, flags, params, resources)
}

#[test]
fn provides_flag_by_name() {
    let intent = intent_with_flags(vec![
        FlagSummary::with_name("a", None, None, None, None, false, false),
        FlagSummary::with_name("b", None, None, None, None, false, false),
    ]);
    assert_eq!(intent.flag("b").unwrap().name(), "b");
}

#[test]
fn checks_argument_existance() {
    let intent = intent_with_args(vec!["--b".to_string(), "-c".to_string()]);
    assert_eq!(intent.has_arg("-c"), true);
    assert_eq!(intent.has_arg("b"), false);
}

#[test]
fn checks_flag_existance() {
    let intent = intent_with_flags(vec![FlagSummary::with_name(
        "b", None, None, None, None, false, false,
    )]);
    assert_eq!(intent.has_flag("b"), true);
    assert_eq!(intent.has_flag("x"), false);
}

#[test]
fn checks_provided_flag() {
    let intent = intent_with_flags(vec![
        FlagSummary::with_name("a", None, None, None, None, false, true),
        FlagSummary::with_name("b", None, None, None, None, false, false),
    ]);
    assert_eq!(intent.has_provided_flag("a"), true);
    assert_eq!(intent.has_provided_flag("b"), false);
    assert_eq!(intent.has_provided_flag("x"), false);
}

#[test]
fn finds_resource_by_name() {
    let intent = intent_with_resources(vec![
        ResourceSummary::with_name("db", Some("database".to_string())),
        ResourceSummary::with_name("net", None),
    ]);
    assert_eq!(intent.resource("net").unwrap().name(), "net");
    assert!(intent.resource("disk").is_none());
    assert_eq!(intent.has_resource("db"), true);
    assert_eq!(intent.has_resources(), true);
}

#[test]
fn parses_param_summary_value() {
    let summary = ParamSummary::with_name("count", None, Some("42".to_string()), None, true);
    assert_eq!(summary.to_value::<i32>(), Some(42));
    assert_eq!(summary.to_value::<f64>(), Some(42.0));
    let empty = ParamSummary::with_name("count", None, None, None, false);
    assert_eq!(empty.to_value::<i32>(), None);
    let bad = ParamSummary::with_name("count", None, Some("x9".to_string()), None, true);
    assert_eq!(bad.to_value::<i32>(), None);
}

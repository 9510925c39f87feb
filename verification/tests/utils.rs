use rawcmd::{
    build_flag_summaries, build_param_summaries, build_resource_summaries,
    build_subcommand_positions, build_subcommand_summaries, build_supcommand_summaries,
    split_equal_args, subcommand_at_position, Command, Context, ErrorKind, Flag, FlagSummary,
    Param, ParamSummary, Resource,
};

fn strings(items: Vec<&str>) -> Vec<String> {
    items.iter().map(|s| s.to_string()).collect()
}

#[test]
fn splits_equal_args() {
    assert_eq!(
        split_equal_args(&vec!["aa", "bb=11", "--cc=22", "-d=33"]
            .iter()
            .map(|s| s.to_string())
            .collect()),
        vec!["aa", "bb", "11", "--cc", "22", "-d", "33"],
    );
}

#[test]
fn builds_command_positions() {
    let command = Command::<Context>::with_name("000").with_subcommand(
        Command::with_name("aaa")
            .with_subcommand(Command::with_name("bbb"))
            .with_subcommand(Command::with_name("ccc")),
    );
    let positions = build_subcommand_positions(&command, &strings(vec!["aaa", "ccc"])).unwrap();
    let total = positions.len();
    assert_eq!(total, 2);
    assert_eq!(positions, [0, 1]);
}

#[test]
fn builds_supcommand_summaries() {
    let command = Command::<Context>::with_name("000").with_subcommand(
        Command::with_name("aaa").with_subcommand(Command::with_name("bbb")),
    );
    let positions = build_subcommand_positions(&command, &strings(vec!["aaa", "bbb"])).unwrap();
    let summaries = build_supcommand_summaries(&command, &positions);
    let names: Vec<String> = summaries.iter().map(|s| s.name().clone()).collect();
    assert_eq!(names, ["000", "aaa"]);
}

#[test]
fn builds_flag_summaries() {
    let command = Command::<Context>::with_name("")
        .with_flag(Flag::with_name("aaa"))
        .with_flag(Flag::with_name("bbb").with_alias("b"))
        .with_flag(Flag::with_name("ccc").with_alias("c").accept_value())
        .with_flag(Flag::with_name("ddd").with_alias("d"))
        .with_flag(Flag::with_name("eee"));
    let summaries0 =
        build_flag_summaries(&command, &strings(vec!["cmd", "--aaa", "-c", "cval", "--eee", "--"]))
            .unwrap();
    let summaries1 =
        build_flag_summaries(&command, &strings(vec!["--aaa", "-c", "cval", "--eee"])).unwrap();
    let provided0: Vec<FlagSummary> = summaries0.iter().filter(|s| s.provided()).cloned().collect();
    let provided1: Vec<FlagSummary> = summaries1.iter().filter(|s| s.provided()).cloned().collect();
    let names0: Vec<String> = provided0.iter().map(|s| s.name().clone()).collect();
    let names1: Vec<String> = provided1.iter().map(|s| s.name().clone()).collect();
    assert_eq!(summaries0.len(), 5);
    assert_eq!(summaries1.len(), 5);
    assert_eq!(names0, ["aaa", "ccc", "eee"]);
    assert_eq!(names1, ["aaa", "ccc", "eee"]);
    assert_eq!(provided0.get(1).unwrap().value().as_ref().unwrap(), "cval");
}

#[test]
fn builds_param_summaries() {
    let command = Command::<Context>::with_name("")
        .with_subcommand(
            Command::with_name("cmd")
                .with_flag(Flag::with_name("bbb").with_alias("c"))
                .with_param(Param::with_name("ddd")),
        )
        .with_flag(Flag::with_name("aaa"))
        .with_flag(Flag::with_name("bbb").with_alias("c").accept_value())
        .with_param(Param::with_name("aaa"))
        .with_param(Param::with_name("bbb"))
        .with_param(Param::with_name("ccc"));
    let summaries0 =
        build_param_summaries(&command, &strings(vec!["--aaa", "-c", "x", "bbb", "ccc", "--"]))
            .unwrap();
    let summaries1 = build_param_summaries(&command, &strings(vec!["cmd", "-c", "ddd"])).unwrap();
    let summaries2 = build_param_summaries(&command, &strings(vec!["cmd", "ddd"])).unwrap();
    let provided0: Vec<ParamSummary> =
        summaries0.iter().filter(|s| s.provided()).cloned().collect();
    let provided1: Vec<ParamSummary> =
        summaries1.iter().filter(|s| s.provided()).cloned().collect();
    let provided2: Vec<ParamSummary> =
        summaries2.iter().filter(|s| s.provided()).cloned().collect();
    let names0: Vec<String> = provided0.iter().map(|s| s.name().clone()).collect();
    let names1: Vec<String> = provided1.iter().map(|s| s.name().clone()).collect();
    let names2: Vec<String> = provided2.iter().map(|s| s.name().clone()).collect();
    assert_eq!(summaries0.len(), 3);
    assert_eq!(summaries1.len(), 1);
    assert_eq!(summaries2.len(), 1);
    assert_eq!(names0, ["bbb", "ccc"]);
    assert_eq!(names1, ["ddd"]);
    assert_eq!(names2, ["ddd"]);
}

#[test]
fn binds_free_tokens_to_trailing_params() {
    let command = Command::<Context>::with_name("")
        .with_flag(Flag::with_name("aaa"))
        .with_flag(Flag::with_name("bbb").with_alias("c").accept_value())
        .with_param(Param::with_name("aaa").with_default_value("adef"))
        .with_param(Param::with_name("bbb"))
        .with_param(Param::with_name("ccc"));
    let summaries =
        build_param_summaries(&command, &strings(vec!["--aaa", "-c", "x", "bbb", "ccc", "--"]))
            .unwrap();
    assert_eq!(summaries[0].name(), "aaa");
    assert_eq!(summaries[0].provided(), false);
    assert_eq!(summaries[0].value().as_ref().unwrap(), "adef");
    assert_eq!(summaries[1].name(), "bbb");
    assert_eq!(summaries[1].value().as_ref().unwrap(), "bbb");
    assert_eq!(summaries[2].name(), "ccc");
    assert_eq!(summaries[2].value().as_ref().unwrap(), "ccc");
}

#[test]
fn fails_on_too_many_params() {
    let command = Command::<Context>::with_name("").with_param(Param::with_name("only"));
    let err = build_param_summaries(&command, &strings(vec!["one", "two"])).unwrap_err();
    assert_eq!(err.kind(), &ErrorKind::ToManyParams(1, 2));
    assert_eq!(*err.status(), 67);
    assert_eq!(err.message(), "Expected `1` parameters, found 2.");
}

#[test]
fn fails_on_unknown_flag() {
    let command = Command::<Context>::with_name("").with_flag(Flag::with_name("aaa"));
    let err = build_flag_summaries(&command, &strings(vec!["--zzz"])).unwrap_err();
    assert_eq!(err.kind(), &ErrorKind::UnknownFlag("--zzz".to_string()));
    assert_eq!(*err.status(), 66);
    assert_eq!(err.message(), "The provided flag `--zzz` does not exist.");
}

#[test]
fn fails_on_missing_flag_value_at_end() {
    let command =
        Command::<Context>::with_name("").with_flag(Flag::with_name("ccc").accept_value());
    let err = build_flag_summaries(&command, &strings(vec!["--ccc"])).unwrap_err();
    assert_eq!(err.kind(), &ErrorKind::MissingFlagValue("--ccc".to_string()));
    assert_eq!(*err.status(), 69);
    assert_eq!(err.message(), "The provided flag `--ccc` should have a value.");
}

#[test]
fn fails_on_missing_flag_value_before_flag() {
    let command = Command::<Context>::with_name("")
        .with_flag(Flag::with_name("ccc").accept_value())
        .with_flag(Flag::with_name("ddd"));
    let err = build_flag_summaries(&command, &strings(vec!["--ccc", "--ddd"])).unwrap_err();
    assert_eq!(err.kind(), &ErrorKind::MissingFlagValue("--ccc".to_string()));
}

#[test]
fn defaults_absent_flags() {
    let command = Command::<Context>::with_name("")
        .with_flag(Flag::with_name("aaa").with_default_value("fallback"))
        .with_flag(Flag::with_name("bbb"));
    let summaries = build_flag_summaries(&command, &strings(vec![])).unwrap();
    assert_eq!(summaries.len(), 2);
    assert_eq!(summaries[0].name(), "aaa");
    assert_eq!(summaries[0].provided(), false);
    assert_eq!(summaries[0].value().as_ref().unwrap(), "fallback");
    assert_eq!(summaries[1].name(), "bbb");
    assert_eq!(summaries[1].provided(), false);
    assert!(summaries[1].value().is_none());
}

#[test]
fn keeps_last_duplicate_flag_value() {
    let command =
        Command::<Context>::with_name("").with_flag(Flag::with_name("ccc").accept_value());
    let summaries =
        build_flag_summaries(&command, &strings(vec!["--ccc", "one", "--ccc", "two"])).unwrap();
    assert_eq!(summaries.len(), 1);
    assert_eq!(summaries[0].provided(), true);
    assert_eq!(summaries[0].value().as_ref().unwrap(), "two");
}

#[test]
fn flag_order_does_not_matter() {
    let command = Command::<Context>::with_name("")
        .with_flag(Flag::with_name("aaa"))
        .with_flag(Flag::with_name("bbb").with_alias("b"))
        .with_flag(Flag::with_name("ccc").with_alias("c").accept_value());
    let one = build_flag_summaries(&command, &strings(vec!["--aaa", "-c", "cval", "-b"])).unwrap();
    let two = build_flag_summaries(&command, &strings(vec!["-b", "--aaa", "-c", "cval"])).unwrap();
    let three = build_flag_summaries(&command, &strings(vec!["-c", "cval", "-b", "--aaa"])).unwrap();
    assert_eq!(one, two);
    assert_eq!(one, three);
}

#[test]
fn sorts_flag_summaries_case_insensitively() {
    let command = Command::<Context>::with_name("")
        .with_flag(Flag::with_name("bETA"))
        .with_flag(Flag::with_name("Alpha"))
        .with_flag(Flag::with_name("gamma"));
    let summaries = build_flag_summaries(&command, &strings(vec![])).unwrap();
    let names: Vec<String> = summaries.iter().map(|s| s.name().clone()).collect();
    assert_eq!(names, ["Alpha", "bETA", "gamma"]);
}

#[test]
fn sorts_subcommand_summaries_case_insensitively() {
    let command = Command::<Context>::with_name("root")
        .with_subcommand(Command::with_name("delta"))
        .with_subcommand(Command::with_name("Charlie"))
        .with_subcommand(Command::with_name("bravo"));
    let summaries = build_subcommand_summaries(&command);
    let names: Vec<String> = summaries.iter().map(|s| s.name().clone()).collect();
    assert_eq!(names, ["bravo", "Charlie", "delta"]);
}

#[test]
fn keeps_equals_in_split_values() {
    assert_eq!(
        split_equal_args(&strings(vec!["--key=a=b"])),
        vec!["--key", "a=b"],
    );
}

#[test]
fn stops_splitting_after_double_dash_token() {
    // The splitter treats every token alike; `--` itself has no `=` and
    // passes through unchanged.
    assert_eq!(split_equal_args(&strings(vec!["--", "a=b"])), vec!["--", "a", "b"]);
}

#[test]
fn finds_subcommand_at_position() {
    let command = Command::<Context>::with_name("000").with_subcommand(
        Command::with_name("aaa").with_subcommand(Command::with_name("bbb")),
    );
    let positions = build_subcommand_positions(&command, &strings(vec!["aaa", "bbb"])).unwrap();
    let resolved = subcommand_at_position(&command, &positions);
    assert_eq!(resolved.name(), "bbb");
}

#[test]
fn projects_resource_summaries() {
    let command = Command::<Context>::with_name("root")
        .with_resource(Resource::with_name("db").with_description("database"))
        .with_resource(Resource::with_name("net"));
    let summaries = build_resource_summaries(&command);
    assert_eq!(summaries.len(), 2);
    assert_eq!(summaries[0].name(), "db");
    assert_eq!(summaries[0].description().as_ref().unwrap(), "database");
    assert_eq!(summaries[1].name(), "net");
    assert!(summaries[1].description().is_none());
}

#[test]
fn reports_unknown_command_token() {
    let command =
        Command::<Context>::with_name("000").with_subcommand(Command::with_name("aaa"));
    let err = build_subcommand_positions(&command, &strings(vec!["zzz"])).unwrap_err();
    assert_eq!(err.kind(), &ErrorKind::UnknownCommand("zzz".to_string()));
}

use rawcmd::{Command, Context, Flag, Param, Resource, ResourceData};

#[test]
fn builds_flag_declaration() {
    let flag = Flag::with_name("verbose")
        .with_alias("v")
        .with_description("more output")
        .with_default_value("off")
        .accept_value();
    assert_eq!(flag.name(), "verbose");
    assert_eq!(flag.alias().as_ref().unwrap(), "v");
    assert_eq!(flag.description().as_ref().unwrap(), "more output");
    assert_eq!(flag.default_value().as_ref().unwrap(), "off");
    assert_eq!(flag.accepts_value(), true);
    let bare = Flag::with_name("quiet");
    assert!(bare.alias().is_none());
    assert_eq!(bare.accepts_value(), false);
}

#[test]
fn builds_param_declaration() {
    let param = Param::with_name("path")
        .with_description("input file")
        .with_default_value(".");
    assert_eq!(param.name(), "path");
    assert_eq!(param.description().as_ref().unwrap(), "input file");
    assert_eq!(param.default_value().as_ref().unwrap(), ".");
}

#[test]
fn builds_resource_declaration() {
    let resource = Resource::with_name("net").with_description("network access");
    assert_eq!(resource.name(), "net");
    assert_eq!(resource.description().as_ref().unwrap(), "network access");
    let data = ResourceData::with_name("net", Some("network access".to_string()));
    assert_eq!(data.name(), "net");
    assert_eq!(data.description().as_ref().unwrap(), "network access");
}

#[test]
fn builds_command_metadata() {
    let command = Command::<Context>::with_name("app")
        .with_about("a tool")
        .with_description("does things")
        .with_author("someone")
        .with_version("1.2.3")
        .with_flag(Flag::with_name("verbose"))
        .with_param(Param::with_name("path"))
        .with_resource(Resource::with_name("net"))
        .with_subcommand(Command::with_name("sub"));
    assert_eq!(command.name(), "app");
    assert_eq!(command.about().as_ref().unwrap(), "a tool");
    assert_eq!(command.description().as_ref().unwrap(), "does things");
    assert_eq!(command.author().as_ref().unwrap(), "someone");
    assert_eq!(command.version().as_ref().unwrap(), "1.2.3");
    assert_eq!(command.flags().len(), 1);
    assert_eq!(command.params().len(), 1);
    assert_eq!(command.resources().len(), 1);
    assert_eq!(command.commands().len(), 1);
    assert_eq!(command.commands()[0].name(), "sub");
}

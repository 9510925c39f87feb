use rawcmd::{Command, CommandHandler, Context, Error, ErrorKind, Intent, Resolver};

struct CodeResolver(usize);

impl Resolver<Context> for CodeResolver {
    fn resolve(&self, _intent: &Intent, _ctx: &mut Context) -> Result<usize, Error> {
        Ok(self.0)
    }
}

struct FailResolver;

impl Resolver<Context> for FailResolver {
    fn resolve(&self, _intent: &Intent, _ctx: &mut Context) -> Result<usize, Error> {
        Err(Error::default())
    }
}

struct OkHandler(usize);

impl CommandHandler<Context> for OkHandler {
    fn handle(&self, _error: Error, _ctx: &mut Context) -> Result<usize, Error> {
        Ok(self.0)
    }
}

fn strings(items: Vec<&str>) -> Vec<String> {
    items.iter().map(|s| s.to_string()).collect()
}

#[test]
fn resolves_command() {
    let mut ctx = Context::default();
    let app = Command::with_name("a").with_resolver(Box::new(CodeResolver(1)));
    assert_eq!(app.run_args(vec![] as Vec<String>, &mut ctx), Ok(1));
    let app = Command::with_name("a").with_resolver(Box::new(CodeResolver(2)));
    assert_eq!(app.run_args(vec![] as Vec<String>, &mut ctx), Ok(2));
}

#[test]
fn resolves_subcommand() {
    let mut ctx = Context::default();
    let app = Command::with_name("a")
        .with_subcommand(Command::with_name("b").with_resolver(Box::new(CodeResolver(1))))
        .with_resolver(Box::new(CodeResolver(2)));
    assert_eq!(app.run_args(strings(vec!["b"]), &mut ctx), Ok(1));
}

#[test]
fn handles_error() {
    let mut ctx = Context::default();
    let app = Command::with_name("a")
        .with_resolver(Box::new(FailResolver))
        .with_handler(Box::new(OkHandler(1)));
    assert_eq!(app.run_args(vec![] as Vec<String>, &mut ctx), Ok(1));
}

#[test]
fn performs_command() {
    let result = Command::with_name("0")
        .with_subcommand(Command::with_name("1").with_resolver(Box::new(CodeResolver(0))))
        .with_subcommand(Command::with_name("2").with_resolver(Box::new(CodeResolver(1))))
        .with_subcommand(Command::with_name("3").with_resolver(Box::new(CodeResolver(0))))
        .with_resolver(Box::new(CodeResolver(0)))
        .run_args(strings(vec!["2"]), &mut Context::default());
    assert_eq!(result, Ok(1));
}

#[test]
fn fails_without_resolver() {
    let mut ctx = Context::default();
    let app = Command::<Context>::with_name("root");
    let err = app.run_args(vec![] as Vec<String>, &mut ctx).unwrap_err();
    assert_eq!(
        err.kind(),
        &ErrorKind::MissingCommandResolver("root".to_string())
    );
    assert_eq!(*err.status(), 68);
    assert_eq!(
        err.message(),
        "The requested command `root` does not have a resolver."
    );
}

#[test]
fn recovers_missing_resolver_with_handler() {
    let mut ctx = Context::default();
    let app = Command::<Context>::with_name("root").with_handler(Box::new(OkHandler(7)));
    assert_eq!(app.run_args(vec![] as Vec<String>, &mut ctx), Ok(7));
}

#[test]
fn fails_on_unknown_command() {
    let mut ctx = Context::default();
    let app = Command::with_name("root")
        .with_subcommand(Command::with_name("aaa").with_resolver(Box::new(CodeResolver(0))))
        .with_resolver(Box::new(CodeResolver(0)));
    let err = app.run_args(strings(vec!["bbb"]), &mut ctx).unwrap_err();
    assert_eq!(err.kind(), &ErrorKind::UnknownCommand("bbb".to_string()));
    assert_eq!(*err.status(), 65);
    assert_eq!(err.message(), "The requested command `bbb` does not exist.");
}

#[test]
fn splits_tokens_before_resolution() {
    let mut ctx = Context::default();
    let app = Command::with_name("root")
        .with_flag(rawcmd::Flag::with_name("ccc").with_alias("c").accept_value())
        .with_resolver(Box::new(CodeResolver(3)));
    assert_eq!(app.run_args(strings(vec!["--ccc=cval"]), &mut ctx), Ok(3));
}

#[test]
fn handler_recovers_builder_failure() {
    let mut ctx = Context::default();
    let app = Command::with_name("root")
        .with_resolver(Box::new(CodeResolver(0)))
        .with_handler(Box::new(OkHandler(9)));
    let result = app.run_args(strings(vec!["--nope"]), &mut ctx);
    assert_eq!(result, Ok(9));
}

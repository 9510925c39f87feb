use rawcmd::{Error, ErrorCode, ErrorKind};

#[test]
fn builds_error_messages_and_statuses() {
    let cases: Vec<(ErrorKind, i32, &str)> = vec![
        (
            ErrorKind::GeneralError,
            1,
            "Unknown error occurred while processing.",
        ),
        (
            ErrorKind::UnknownCommand("x".to_string()),
            65,
            "The requested command `x` does not exist.",
        ),
        (
            ErrorKind::UnknownFlag("-x".to_string()),
            66,
            "The provided flag `-x` does not exist.",
        ),
        (
            ErrorKind::MissingCommandResolver("x".to_string()),
            68,
            "The requested command `x` does not have a resolver.",
        ),
        (
            ErrorKind::MissingFlagValue("-x".to_string()),
            69,
            "The provided flag `-x` should have a value.",
        ),
        (
            ErrorKind::InvalidFlagValue("-x".to_string()),
            70,
            "The provided flag `-x` has invalid value.",
        ),
        (
            ErrorKind::InvalidParamValue(205),
            71,
            "The provided param `205` has invalid value.",
        ),
        (
            ErrorKind::ToManyParams(3, 10),
            67,
            "Expected `3` parameters, found 10.",
        ),
        (
            ErrorKind::CommandFailed("x".to_string()),
            72,
            "The requested command `x` failed to execute.",
        ),
    ];
    for (kind, status, message) in cases {
        let err = Error::new(kind.clone());
        assert_eq!(err.kind(), &kind);
        assert_eq!(*err.status(), status);
        assert_eq!(err.message(), message);
        assert!(err.source().is_none());
    }
}

#[test]
fn chains_error_sources() {
    let inner = Error::new(ErrorKind::UnknownFlag("-x".to_string()));
    let outer = Error::with_source(inner, ErrorKind::GeneralError);
    assert_eq!(outer.kind(), &ErrorKind::GeneralError);
    let source = outer.source().unwrap();
    assert_eq!(source.kind(), &ErrorKind::UnknownFlag("-x".to_string()));
}

#[test]
fn compares_errors_by_kind() {
    let a = Error::new(ErrorKind::UnknownCommand("x".to_string()));
    let b = Error::new(ErrorKind::UnknownCommand("x".to_string()));
    let c = Error::new(ErrorKind::UnknownCommand("y".to_string()));
    assert_eq!(a, b);
    assert_ne!(a, c);
    assert_eq!(Error::default().kind(), &ErrorKind::GeneralError);
}

#[test]
fn numbers_error_codes() {
    assert_eq!(ErrorCode::UnknownCommand.code(), 1);
    assert_eq!(ErrorCode::UnknownFlag.code(), 2);
    assert_eq!(ErrorCode::MissingFlagValue.code(), 3);
    assert_eq!(ErrorCode::MissingResolver.code(), 4);
    assert_eq!(ErrorCode::UnknownFlag, ErrorCode::UnknownFlag);
    assert_ne!(ErrorCode::UnknownFlag, ErrorCode::MissingResolver);
}

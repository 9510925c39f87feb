//! The taxonomy of resolution failures.

use vstd::prelude::*;

verus! {

/// The kind of a resolution failure, with its payload.
#[derive(Debug, Clone)]
pub enum ErrorKind {
    GeneralError,
    UnknownCommand(String),
    MissingCommandResolver(String),
    CommandFailed(String),
    UnknownFlag(String),
    MissingFlagValue(String),
    InvalidFlagValue(String),
    InvalidParamValue(usize),
    ToManyParams(usize, usize),
}

/// The mathematical content of an error kind.
pub ghost enum ErrorKindV {
    GeneralError,
    UnknownCommand(Seq<char>),
    MissingCommandResolver(Seq<char>),
    CommandFailed(Seq<char>),
    UnknownFlag(Seq<char>),
    MissingFlagValue(Seq<char>),
    InvalidFlagValue(Seq<char>),
    InvalidParamValue(int),
    ToManyParams(int, int),
}

impl View for ErrorKind {
    type V = ErrorKindV;

    open spec fn view(&self) -> ErrorKindV {
        match self {
            ErrorKind::GeneralError => ErrorKindV::GeneralError,
            ErrorKind::UnknownCommand(n) => ErrorKindV::UnknownCommand(n@),
            ErrorKind::MissingCommandResolver(n) => ErrorKindV::MissingCommandResolver(n@),
            ErrorKind::CommandFailed(n) => ErrorKindV::CommandFailed(n@),
            ErrorKind::UnknownFlag(n) => ErrorKindV::UnknownFlag(n@),
            ErrorKind::MissingFlagValue(n) => ErrorKindV::MissingFlagValue(n@),
            ErrorKind::InvalidFlagValue(n) => ErrorKindV::InvalidFlagValue(n@),
            ErrorKind::InvalidParamValue(i) => ErrorKindV::InvalidParamValue(*i as int),
            ErrorKind::ToManyParams(a, b) => ErrorKindV::ToManyParams(*a as int, *b as int),
        }
    }
}

impl DeepView for ErrorKind {
    type V = ErrorKindV;

    open spec fn deep_view(&self) -> ErrorKindV {
        self.view()
    }
}

impl PartialEq for ErrorKind {
    fn eq(&self, other: &Self) -> (r: bool) {
        match (self, other) {
            (ErrorKind::GeneralError, ErrorKind::GeneralError) => true,
            (ErrorKind::UnknownCommand(a), ErrorKind::UnknownCommand(b)) => *a == *b,
            (ErrorKind::MissingCommandResolver(a), ErrorKind::MissingCommandResolver(b)) => *a == *b,
            (ErrorKind::CommandFailed(a), ErrorKind::CommandFailed(b)) => *a == *b,
            (ErrorKind::UnknownFlag(a), ErrorKind::UnknownFlag(b)) => *a == *b,
            (ErrorKind::MissingFlagValue(a), ErrorKind::MissingFlagValue(b)) => *a == *b,
            (ErrorKind::InvalidFlagValue(a), ErrorKind::InvalidFlagValue(b)) => *a == *b,
            (ErrorKind::InvalidParamValue(a), ErrorKind::InvalidParamValue(b)) => *a == *b,
            (ErrorKind::ToManyParams(a1, a2), ErrorKind::ToManyParams(b1, b2)) => {
                *a1 == *b1 && *a2 == *b2
            },
            _ => false,
        }
    }
}

impl vstd::std_specs::cmp::PartialEqSpecImpl for ErrorKind {
    open spec fn obeys_eq_spec() -> bool {
        true
    }

    open spec fn eq_spec(&self, other: &Self) -> bool {
        self@ == other@
    }
}

} // verus!

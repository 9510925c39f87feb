//! The structured error returned by the resolution engine: a kind, a
//! human-readable message and a numeric status.

use vstd::prelude::*;

verus! {

use crate::error_kind::ErrorKind;
use crate::error_kind::ErrorKindV;
use crate::text::concat3;
use crate::text::concat5;
use crate::text::spec_decimal;
use crate::text::usize_to_string;

/// A resolution failure: kind, message, status and optional underlying error.
#[derive(Debug)]
pub struct Error {
    pub kind: ErrorKind,
    pub message: String,
    pub status: i32,
    pub source: Option<Box<Error>>,
}

/// The message text that belongs to an error kind.
pub open spec fn spec_error_message(k: ErrorKindV) -> Seq<char> {
    match k {
        ErrorKindV::GeneralError => "Unknown error occurred while processing."@,
        ErrorKindV::UnknownCommand(n) => "The requested command `"@ + n + "` does not exist."@,
        ErrorKindV::UnknownFlag(n) => "The provided flag `"@ + n + "` does not exist."@,
        ErrorKindV::MissingCommandResolver(n) => "The requested command `"@ + n
            + "` does not have a resolver."@,
        ErrorKindV::MissingFlagValue(n) => "The provided flag `"@ + n + "` should have a value."@,
        ErrorKindV::InvalidFlagValue(n) => "The provided flag `"@ + n + "` has invalid value."@,
        ErrorKindV::InvalidParamValue(i) => "The provided param `"@ + spec_decimal(i)
            + "` has invalid value."@,
        ErrorKindV::ToManyParams(a, b) => "Expected `"@ + spec_decimal(a) + "` parameters, found "@
            + spec_decimal(b) + "."@,
        ErrorKindV::CommandFailed(n) => "The requested command `"@ + n + "` failed to execute."@,
    }
}

/// The numeric status that belongs to an error kind, in the conventional
/// range reserved for command-line usage errors.
pub open spec fn spec_error_status(k: ErrorKindV) -> int {
    match k {
        ErrorKindV::GeneralError => 1,
        ErrorKindV::UnknownCommand(_) => 65,
        ErrorKindV::UnknownFlag(_) => 66,
        ErrorKindV::MissingCommandResolver(_) => 68,
        ErrorKindV::MissingFlagValue(_) => 69,
        ErrorKindV::InvalidFlagValue(_) => 70,
        ErrorKindV::InvalidParamValue(_) => 71,
        ErrorKindV::ToManyParams(_, _) => 67,
        ErrorKindV::CommandFailed(_) => 72,
    }
}

/// An error is well formed when message and status agree with its kind and
/// no underlying error is attached.
pub open spec fn spec_error_wf(e: Error) -> bool {
    &&& e.message@ == spec_error_message(e.kind@)
    &&& e.status as int == spec_error_status(e.kind@)
    &&& e.source is None
}

/// Returns the message text for an error kind.
pub fn error_message(kind: &ErrorKind) -> (r: String)
    ensures
        r@ == spec_error_message(kind@),
{
    match kind {
        ErrorKind::GeneralError => "Unknown error occurred while processing.".to_owned(),
        ErrorKind::UnknownCommand(n) => concat3(
            "The requested command `",
            n.as_str(),
            "` does not exist.",
        ),
        ErrorKind::UnknownFlag(n) => concat3("The provided flag `", n.as_str(), "` does not exist."),
        ErrorKind::MissingCommandResolver(n) => concat3(
            "The requested command `",
            n.as_str(),
            "` does not have a resolver.",
        ),
        ErrorKind::MissingFlagValue(n) => concat3(
            "The provided flag `",
            n.as_str(),
            "` should have a value.",
        ),
        ErrorKind::InvalidFlagValue(n) => concat3(
            "The provided flag `",
            n.as_str(),
            "` has invalid value.",
        ),
        ErrorKind::InvalidParamValue(i) => concat3(
            "The provided param `",
            usize_to_string(*i).as_str(),
            "` has invalid value.",
        ),
        ErrorKind::ToManyParams(a, b) => concat5(
            "Expected `",
            usize_to_string(*a).as_str(),
            "` parameters, found ",
            usize_to_string(*b).as_str(),
            ".",
        ),
        ErrorKind::CommandFailed(n) => concat3(
            "The requested command `",
            n.as_str(),
            "` failed to execute.",
        ),
    }
}

/// Returns the numeric status for an error kind.
pub fn error_status(kind: &ErrorKind) -> (r: i32)
    ensures
        r as int == spec_error_status(kind@),
{
    match kind {
        ErrorKind::GeneralError => 1,
        ErrorKind::UnknownCommand(_) => 65,
        ErrorKind::UnknownFlag(_) => 66,
        ErrorKind::MissingCommandResolver(_) => 68,
        ErrorKind::MissingFlagValue(_) => 69,
        ErrorKind::InvalidFlagValue(_) => 70,
        ErrorKind::InvalidParamValue(_) => 71,
        ErrorKind::ToManyParams(_, _) => 67,
        ErrorKind::CommandFailed(_) => 72,
    }
}

impl Error {
    /// Returns a new error of the given kind, with its message and status.
    pub fn new(kind: ErrorKind) -> (r: Self)
        ensures
            r.kind == kind,
            spec_error_wf(r),
    {
        let message = error_message(&kind);
        let status = error_status(&kind);
        Self { message, status, kind, source: None }
    }

    /// Returns a new error of the given kind, recording an underlying error.
    pub fn with_source(source: Error, kind: ErrorKind) -> (r: Self)
        ensures
            r.kind == kind,
            r.message@ == spec_error_message(kind@),
            r.status as int == spec_error_status(kind@),
            r.source matches Some(b) && *b == source,
    {
        let message = error_message(&kind);
        let status = error_status(&kind);
        Self { message, status, kind, source: Some(Box::new(source)) }
    }

    /// Returns the kind.
    pub fn kind(&self) -> (r: &ErrorKind)
        ensures
            *r == self.kind,
    {
        &self.kind
    }

    /// Returns the message.
    pub fn message(&self) -> (r: &str)
        ensures
            r@ == self.message@,
    {
        self.message.as_str()
    }

    /// Returns the status.
    pub fn status(&self) -> (r: &i32)
        ensures
            *r == self.status,
    {
        &self.status
    }

    /// Returns the underlying error, when one was recorded.
    pub fn source(&self) -> (r: Option<&Error>)
        ensures
            r is Some <==> self.source is Some,
            r matches Some(e) ==> self.source matches Some(b) && *e == *b,
    {
        match &self.source {
            Some(b) => Some(&**b),
            None => None,
        }
    }
}

impl std::default::Default for Error {
    /// Returns the general error.
    fn default() -> (r: Self)
        ensures
            r.kind@ is GeneralError,
            spec_error_wf(r),
    {
        Self::new(ErrorKind::GeneralError)
    }
}

impl PartialEq for Error {
    fn eq(&self, other: &Self) -> (r: bool) {
        self.kind == other.kind
    }
}

impl vstd::std_specs::cmp::PartialEqSpecImpl for Error {
    open spec fn obeys_eq_spec() -> bool {
        true
    }

    open spec fn eq_spec(&self, other: &Self) -> bool {
        self.kind@ == other.kind@
    }
}

} // verus!

//! Errors reported by the user-space side.

use vstd::prelude::*;
use vstd::string::StringExecFns;

verus! {

/// What part of the system an [`EfenceError`] comes from.
#[derive(Debug, Clone, Copy, PartialEq, Eq, Structural)]
pub enum ErrorKind {
    Io,
    Ebpf,
    EbpfMap,
    Program,
    TryFromSlice,
    Bug,
}

/// The text by which an error kind is shown.
pub open spec fn error_kind_text(kind: ErrorKind) -> Seq<char> {
    match kind {
        ErrorKind::Io => "Io"@,
        ErrorKind::Ebpf => "Ebpf"@,
        ErrorKind::EbpfMap => "Map"@,
        ErrorKind::Program => "Program"@,
        ErrorKind::TryFromSlice => "TryFromSlice"@,
        ErrorKind::Bug => "Bug"@,
    }
}

impl ErrorKind {
    /// The name of the kind, as it is shown to users.
    pub fn to_string(&self) -> (s: String)
        ensures
            s@ == error_kind_text(*self),
    {
        match self {
            ErrorKind::Io => "Io".to_string(),
            ErrorKind::Ebpf => "Ebpf".to_string(),
            ErrorKind::EbpfMap => "Map".to_string(),
            ErrorKind::Program => "Program".to_string(),
            ErrorKind::TryFromSlice => "TryFromSlice".to_string(),
            ErrorKind::Bug => "Bug".to_string(),
        }
    }
}

/// An error of the user-space tools: its kind and a human-readable message.
#[derive(Debug)]
pub struct EfenceError {
    pub kind: ErrorKind,
    pub msg: String,
}

/// The text by which an error is shown: `"<kind>: <msg>"`.
pub open spec fn efence_error_text(e: EfenceError) -> Seq<char> {
    error_kind_text(e.kind) + ": "@ + e.msg@
}

impl EfenceError {
    /// The error as it is shown to users: the kind, a colon and the message.
    pub fn to_string(&self) -> (s: String)
        ensures
            s@ == efence_error_text(*self),
    {
        let head = self.kind.to_string();
        let with_sep = head.concat(": ");
        with_sep.concat(self.msg.as_str())
    }
}

impl vstd::std_specs::convert::FromSpecImpl<String> for EfenceError {
    open spec fn obeys_from_spec() -> bool {
        true
    }

    open spec fn from_spec(e: String) -> EfenceError {
        EfenceError { kind: ErrorKind::Bug, msg: e }
    }
}

/// A bare message is an internal error: kind [`ErrorKind::Bug`].
impl From<String> for EfenceError {
    fn from(e: String) -> (r: EfenceError) {
        EfenceError { kind: ErrorKind::Bug, msg: e }
    }
}


impl<'a> vstd::std_specs::convert::FromSpecImpl<&'a str> for EfenceError {
    /// A `String` is not determined by its characters in these
    /// specifications, so no single error value can be named for a message;
    /// the conversion is stated by the `ensures` of `from` instead.
    open spec fn obeys_from_spec() -> bool {
        false
    }

    open spec fn from_spec(e: &'a str) -> EfenceError {
        EfenceError { kind: ErrorKind::Bug, msg: arbitrary() }
    }
}

/// A bare message is an internal error: kind [`ErrorKind::Bug`], the message
/// copied.
impl<'a> From<&'a str> for EfenceError {
    fn from(e: &'a str) -> (r: EfenceError)
        ensures
            r.kind == ErrorKind::Bug,
            r.msg@ == e@,
    {
        EfenceError { kind: ErrorKind::Bug, msg: e.to_string() }
    }
}

} // verus!

//! The failure taxonomy of the engine.
//!
//! Every error is fatal to the top-level operation that produced it: there is
//! no local recovery or retry anywhere in the core. The orchestration layer
//! surfaces the first error and exits non-zero.

use vstd::prelude::*;
use vstd::string::StringExecFns;

verus! {

/// The mathematical value of an [`Error`]: the same variants over sequences
/// of characters. Contracts speak of this view.
pub enum ErrorV {
    NotFound(Seq<char>),
    EvalError(Seq<char>),
    ParseError(Seq<char>),
    MissingField(Seq<char>),
    TypeMismatch(Seq<char>),
    NoBackendFound,
    CommandFailed { command: Seq<char>, exit_code: i32, stderr: Seq<char> },
    PermissionDenied,
    EmptyCommand,
}

/// Everything that can go wrong in the core engine.
#[derive(Debug)]
pub enum Error {
    /// A file or path that had to exist does not; carries the path.
    NotFound(String),
    /// A descriptor, configuration or custom-stage script failed to
    /// evaluate; carries the evaluator's message.
    EvalError(String),
    /// The cache file does not hold the JSON object this engine writes.
    ParseError(String),
    /// A descriptor lacks a mandatory field; carries the field's name.
    MissingField(String),
    /// A field is present but has the wrong shape; carries the field's name.
    TypeMismatch(String),
    /// No candidate descriptor's binary resolves on this host.
    NoBackendFound,
    /// An external command exited with a non-zero status.
    CommandFailed { command: String, exit_code: i32, stderr: String },
    /// Synchronization was requested without the required privilege.
    PermissionDenied,
    /// A materialized command holds no tokens at all.
    EmptyCommand,
}

impl View for Error {
    type V = ErrorV;

    open spec fn view(&self) -> ErrorV {
        match self {
            Error::NotFound(p) => ErrorV::NotFound(p@),
            Error::EvalError(m) => ErrorV::EvalError(m@),
            Error::ParseError(m) => ErrorV::ParseError(m@),
            Error::MissingField(n) => ErrorV::MissingField(n@),
            Error::TypeMismatch(n) => ErrorV::TypeMismatch(n@),
            Error::NoBackendFound => ErrorV::NoBackendFound,
            Error::CommandFailed { command, exit_code, stderr } => ErrorV::CommandFailed {
                command: command@,
                exit_code: *exit_code,
                stderr: stderr@,
            },
            Error::PermissionDenied => ErrorV::PermissionDenied,
            Error::EmptyCommand => ErrorV::EmptyCommand,
        }
    }
}

/// The one-line description of an error, by its view.
pub open spec fn spec_message(e: ErrorV) -> Seq<char> {
    match e {
        ErrorV::NotFound(p) => "not found: "@ + p,
        ErrorV::EvalError(m) => "evaluation failed: "@ + m,
        ErrorV::ParseError(m) => "parse failed: "@ + m,
        ErrorV::MissingField(n) => "missing field: "@ + n,
        ErrorV::TypeMismatch(n) => "field has the wrong type: "@ + n,
        ErrorV::NoBackendFound => "no backend configuration matches this host"@,
        ErrorV::CommandFailed { command, exit_code, stderr } => "command failed: "@ + command
            + "\n"@ + stderr,
        ErrorV::PermissionDenied => "root privileges are required"@,
        ErrorV::EmptyCommand => "materialized command is empty"@,
    }
}

impl Error {
    /// A human-readable description of the error.
    pub fn message(&self) -> (r: String)
        ensures
            r@ == spec_message(self@),
    {
        match self {
            Error::NotFound(p) => {
                let mut s = String::from_str("not found: ");
                s.append(p.as_str());
                s
            },
            Error::EvalError(m) => {
                let mut s = String::from_str("evaluation failed: ");
                s.append(m.as_str());
                s
            },
            Error::ParseError(m) => {
                let mut s = String::from_str("parse failed: ");
                s.append(m.as_str());
                s
            },
            Error::MissingField(n) => {
                let mut s = String::from_str("missing field: ");
                s.append(n.as_str());
                s
            },
            Error::TypeMismatch(n) => {
                let mut s = String::from_str("field has the wrong type: ");
                s.append(n.as_str());
                s
            },
            Error::NoBackendFound => String::from_str(
                "no backend configuration matches this host",
            ),
            Error::CommandFailed { command, exit_code: _, stderr } => {
                let mut s = String::from_str("command failed: ");
                s.append(command.as_str());
                s.append("\n");
                s.append(stderr.as_str());
                s
            },
            Error::PermissionDenied => String::from_str("root privileges are required"),
            Error::EmptyCommand => String::from_str("materialized command is empty"),
        }
    }
}

} // verus!

//! The library's error type.
//!
//! Every failure that crosses the handler boundary is expressed as one
//! tagged value, so handlers can match on it and the dispatch bridge can
//! translate it into the host's integer codes.

use vstd::prelude::*;
use vstd::string::StringExecFns;

use crate::digits::{format_isize, spec_digits};
use crate::variable::VarError;

verus! {

/// The integer return-code type used by the host's internal functions.
pub type ErrorCode = isize;

/// An error surfaced to command handlers or returned by library operations.
#[derive(Debug)]
pub enum ZError {
    /// A generic return code from a host-internal function.
    Return(ErrorCode),
    /// An error raised while evaluating a command string.
    EvalError(ErrorCode),
    /// An error raised while sourcing a script file.
    SourceError(ErrorCode),
    /// The named file could not be found.
    FileNotFound,
    /// A command name was registered twice with the same builder.
    DuplicateName,
    /// A conversion failed; the payload is the message.
    Conversion(String),
    /// An error raised while interacting with shell variables.
    Var(VarError),
}

impl ZError {
    /// A human-readable description of the error, used when the message is
    /// forwarded to the host's warning or error printer.
    pub fn message(&self) -> (r: String)
        ensures
            r@ == self.spec_message(),
    {
        match self {
            ZError::Return(c) => String::from_str("received return code: ").concat(
                format_isize(*c).as_str(),
            ),
            ZError::EvalError(c) => String::from_str("eval error: ").concat(
                format_isize(*c).as_str(),
            ),
            ZError::SourceError(c) => String::from_str("source error: ").concat(
                format_isize(*c).as_str(),
            ),
            ZError::FileNotFound => String::from_str("file not found"),
            ZError::DuplicateName => String::from_str("duplicate builtin name"),
            ZError::Conversion(msg) => String::from_str("conversion error: ").concat(
                msg.as_str(),
            ),
            ZError::Var(v) => v.message(),
        }
    }

    /// What `message` returns, variant by variant.
    pub open spec fn spec_message(&self) -> Seq<char> {
        match self {
            ZError::Return(c) => "received return code: "@ + spec_digits(*c as int),
            ZError::EvalError(c) => "eval error: "@ + spec_digits(*c as int),
            ZError::SourceError(c) => "source error: "@ + spec_digits(*c as int),
            ZError::FileNotFound => "file not found"@,
            ZError::DuplicateName => "duplicate builtin name"@,
            ZError::Conversion(msg) => "conversion error: "@ + msg@,
            ZError::Var(v) => v.spec_message(),
        }
    }
}

impl From<ErrorCode> for ZError {
    /// Wraps a host return code.
    fn from(e: ErrorCode) -> (r: ZError) {
        ZError::Return(e)
    }
}

impl vstd::std_specs::convert::FromSpecImpl<ErrorCode> for ZError {
    open spec fn obeys_from_spec() -> bool {
        true
    }

    open spec fn from_spec(e: ErrorCode) -> ZError {
        ZError::Return(e)
    }
}

impl From<VarError> for ZError {
    /// Wraps a shell-variable error.
    fn from(e: VarError) -> (r: ZError) {
        ZError::Var(e)
    }
}

impl vstd::std_specs::convert::FromSpecImpl<VarError> for ZError {
    open spec fn obeys_from_spec() -> bool {
        true
    }

    open spec fn from_spec(e: VarError) -> ZError {
        ZError::Var(e)
    }
}

} // verus!

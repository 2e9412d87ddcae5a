//! Outcome translation for calls into the host interpreter.
//!
//! Evaluating a command string or sourcing a script file happens in the
//! host; what comes back is an integer. These functions turn those
//! integers into the library's error type, exactly: the success value
//! maps to `Ok`, everything else carries the code out in the matching
//! error variant.

use vstd::prelude::*;

use crate::error::{ErrorCode, ZError};
use crate::MaybeZError;

verus! {

/// The host's "sourced successfully" return value.
pub const SOURCE_OK: ErrorCode = 0;

/// An internal failure in the host while it interpreted code.
#[derive(Clone, Copy, Debug, PartialEq, Eq, Structural)]
pub struct InternalError;

/// The outcome of evaluating a command string, from the host's error
/// flag: clear means success, anything else is an evaluation error
/// carrying the flag's value.
pub fn eval_outcome(errflag: ErrorCode) -> (r: MaybeZError)
    ensures
        errflag == 0 ==> r is Ok,
        errflag != 0 ==> (r matches Err(e) && e matches ZError::EvalError(c) && c == errflag),
{
    if errflag == 0 {
        Ok(())
    } else {
        Err(ZError::EvalError(errflag))
    }
}

/// The outcome of sourcing a script file, from the host's return value:
/// [`SOURCE_OK`] means success, anything else is a source error carrying
/// the value.
pub fn source_outcome(result: ErrorCode) -> (r: MaybeZError)
    ensures
        result == SOURCE_OK ==> r is Ok,
        result != SOURCE_OK ==> (r matches Err(e) && e matches ZError::SourceError(c) && c
            == result),
{
    if result == SOURCE_OK {
        Ok(())
    } else {
        Err(ZError::SourceError(result))
    }
}

} // verus!

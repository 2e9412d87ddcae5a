//! Shell-variable vocabulary: type flags and the errors variable
//! interaction can raise.
//!
//! Handlers that inspect or change shell variables see failures through
//! [`VarError`], a tagged type they can match on; each leaf error carries
//! a fixed description for the host's warning printer.

use vstd::prelude::*;
use vstd::string::StringExecFns;

verus! {

/// The name type for shell variables.
pub type VariableKey = String;

/// The special type flags a shell variable can carry, as the shell
/// reports them when a variable's type is expanded.
#[derive(Debug, Clone, PartialEq, Eq, Hash)]
pub enum TypeFlags {
    /// Local to the current function scope.
    Local,
    /// Left justified when expanded.
    LeftJustified,
    /// Right justified with leading blanks.
    RightBlanks,
    /// Right justified with leading zeros.
    RightZeros,
    /// Converted to lower case when expanded.
    Lower,
    /// Converted to upper case when expanded.
    Upper,
    /// Read-only.
    ReadOnly,
    /// Tagged.
    Tag,
    /// Tied to the named companion variable.
    Tied(VariableKey),
    /// Exported to subprocesses.
    Export,
    /// An array keeping only the first occurrence of a duplicate value.
    Unique,
    /// Hidden.
    Hide,
    /// Carries the hideval attribute.
    HideVal,
    /// Defined by the shell itself.
    Special,
}

/// The ways code can interact with a shell variable.
#[derive(Debug, Clone, Copy)]
pub enum InteractionType {
    /// Assign a value.
    Assign,
    /// Remove the variable.
    Unset,
    /// Watch for changes.
    Listen,
    /// Read the value.
    Get,
}

impl Default for InteractionType {
    /// Reading is the default interaction.
    fn default() -> (r: InteractionType)
        ensures
            r is Get,
    {
        InteractionType::Get
    }
}

/// Errors raised when changing a variable's type at runtime.
#[derive(Debug, Clone, PartialEq, Eq)]
pub enum VarTypesetError {
    /// The variable is read-only.
    ReadOnly,
    /// The same tie flag was supplied twice; carries the companion name.
    TieDuplicateFlag(VariableKey),
    /// The named companion cannot be tied to.
    TieNotPermitted(VariableKey),
    /// The requested type is invalid for the variable.
    InvalidType,
    /// The change is disallowed.
    Disallowed,
}

impl VarTypesetError {
    /// What `message` returns, variant by variant.
    pub open spec fn spec_message(&self) -> Seq<char> {
        match self {
            VarTypesetError::ReadOnly => "variable is read-only"@,
            VarTypesetError::TieDuplicateFlag(_) => "duplicate type flag provided"@,
            VarTypesetError::TieNotPermitted(_) => "not permitted to tie variable"@,
            VarTypesetError::InvalidType => "invalid variable type"@,
            VarTypesetError::Disallowed => "variable is disallowed"@,
        }
    }

    /// A fixed description of the error.
    pub fn message(&self) -> (r: String)
        ensures
            r@ == self.spec_message(),
    {
        match self {
            VarTypesetError::ReadOnly => String::from_str("variable is read-only"),
            VarTypesetError::TieDuplicateFlag(_) => String::from_str(
                "duplicate type flag provided",
            ),
            VarTypesetError::TieNotPermitted(_) => String::from_str(
                "not permitted to tie variable",
            ),
            VarTypesetError::InvalidType => String::from_str("invalid variable type"),
            VarTypesetError::Disallowed => String::from_str("variable is disallowed"),
        }
    }
}

/// Errors raised by the shell's own variable machinery.
#[derive(Debug, Clone, PartialEq, Eq)]
pub enum VarIntrospectionError {
    /// The variable is invalid in a way the shell language cannot produce.
    InvalidVariable,
    /// The shell's parameter tables are out of step with each other.
    MisalignedParamTab,
    /// The operation is not permitted on this variable.
    NotPermitted,
    /// The variable does not exist.
    Nonexistent,
}

impl VarIntrospectionError {
    /// What `message` returns, variant by variant.
    pub open spec fn spec_message(&self) -> Seq<char> {
        match self {
            VarIntrospectionError::InvalidVariable => "invalid variable"@,
            VarIntrospectionError::MisalignedParamTab => "misaligned paramtab"@,
            VarIntrospectionError::NotPermitted => "not permitted"@,
            VarIntrospectionError::Nonexistent => "variable doesn't exist"@,
        }
    }

    /// A fixed description of the error.
    pub fn message(&self) -> (r: String)
        ensures
            r@ == self.spec_message(),
    {
        match self {
            VarIntrospectionError::InvalidVariable => String::from_str("invalid variable"),
            VarIntrospectionError::MisalignedParamTab => String::from_str("misaligned paramtab"),
            VarIntrospectionError::NotPermitted => String::from_str("not permitted"),
            VarIntrospectionError::Nonexistent => String::from_str("variable doesn't exist"),
        }
    }
}

/// Any error raised while interacting with shell variables, tagged by the
/// interaction that raised it.
#[derive(Debug, Clone, PartialEq, Eq)]
pub enum VarError {
    /// Changing the variable's type failed.
    Typeset(VarTypesetError),
    /// Setting the value failed.
    ValueSet(VarIntrospectionError),
    /// Unsetting the variable failed.
    ValueUnset(VarIntrospectionError),
    /// Reading the value failed.
    ValueGet(VarIntrospectionError),
    /// Forwarding the change inside the library failed; carries the
    /// forwarding error's text.
    Send(String),
}

impl VarError {
    /// What `message` returns, variant by variant: a fixed prefix naming
    /// the interaction, then the leaf error's description.
    pub open spec fn spec_message(&self) -> Seq<char> {
        match self {
            VarError::Typeset(e) => "error setting variable type: "@ + e.spec_message(),
            VarError::ValueSet(e) => "error setting variable value: "@ + e.spec_message(),
            VarError::ValueUnset(e) => "error unsetting variable: "@ + e.spec_message(),
            VarError::ValueGet(e) => "error getting variable value: "@ + e.spec_message(),
            VarError::Send(s) => "error sending to internal channel: "@ + s@,
        }
    }

    /// A description of the error, naming the interaction that raised it.
    pub fn message(&self) -> (r: String)
        ensures
            r@ == self.spec_message(),
    {
        match self {
            VarError::Typeset(e) => String::from_str("error setting variable type: ").concat(
                e.message().as_str(),
            ),
            VarError::ValueSet(e) => String::from_str("error setting variable value: ").concat(
                e.message().as_str(),
            ),
            VarError::ValueUnset(e) => String::from_str("error unsetting variable: ").concat(
                e.message().as_str(),
            ),
            VarError::ValueGet(e) => String::from_str("error getting variable value: ").concat(
                e.message().as_str(),
            ),
            VarError::Send(s) => String::from_str("error sending to internal channel: ").concat(
                s.as_str(),
            ),
        }
    }
}

impl From<VarTypesetError> for VarError {
    /// Wraps a typeset failure.
    fn from(e: VarTypesetError) -> (r: VarError) {
        VarError::Typeset(e)
    }
}

impl vstd::std_specs::convert::FromSpecImpl<VarTypesetError> for VarError {
    open spec fn obeys_from_spec() -> bool {
        true
    }

    open spec fn from_spec(e: VarTypesetError) -> VarError {
        VarError::Typeset(e)
    }
}

} // verus!

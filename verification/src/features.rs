//! Ownership of the feature tables the host reads.
//!
//! The host learns what a module offers from a features record holding one
//! pointer-and-length pair per category it recognizes: builtin commands,
//! condition codes, math functions and parameter definitions. This module
//! models that record over owned values: a category is either unpopulated
//! (the null-pointer state) or holds the descriptor list whose backing
//! storage was transplanted in. The boundary code turns the builtin
//! descriptors into the host's raw records; reclaiming a category's storage
//! happens exactly once, by taking the list back out.

use vstd::prelude::*;

use crate::bytes::has_nul;

verus! {

/// The descriptor of one builtin command, mirroring the record the host
/// reads: name, argument-count bounds, recognized option letters, and
/// whether the shared dispatch function has been installed yet.
pub struct BinDesc {
    /// The command name, without embedded NUL.
    pub name: Vec<u8>,
    /// The minimum number of arguments the command accepts.
    pub minargs: i32,
    /// The maximum number of arguments, or -1 for unbounded.
    pub maxargs: i32,
    /// Index into the module's held strings of the option-letter string,
    /// if the command recognizes options.
    pub flags: Option<usize>,
    /// Whether the dispatch function pointer has been patched in. Only the
    /// holder installs it, after the module is handed over.
    pub handler_installed: bool,
}

impl BinDesc {
    /// The descriptor's name has no embedded NUL and its option-string
    /// index, if any, points into a held-string table of length `n_strings`.
    pub open spec fn wf(&self, n_strings: int) -> bool {
        &&& !has_nul(self.name@)
        &&& match self.flags {
            Some(i) => i < n_strings,
            None => true,
        }
    }
}

/// A placeholder descriptor for the host's condition-code category, which
/// this library never populates.
pub struct CondDesc {}

/// A placeholder descriptor for the host's math-function category, which
/// this library never populates.
pub struct MathFuncDesc {}

/// A placeholder descriptor for the host's parameter-definition category,
/// which this library never populates.
pub struct ParamDefDesc {}

/// Removes and returns a category's backing list. The unpopulated state is
/// left behind, so taking the same category again yields nothing: dropping
/// the result is the single reclamation of that storage.
pub fn free_list<T>(slot: &mut Option<Vec<T>>) -> (r: Option<Vec<T>>)
    ensures
        r == *old(slot),
        *final(slot) is None,
{
    slot.take()
}

/// The four feature categories the host recognizes, each either
/// unpopulated or owning its descriptor list.
pub struct Features {
    /// Builtin commands; the one category this library fills.
    pub binaries: Option<Vec<BinDesc>>,
    /// Condition codes; never populated here.
    pub conditions: Option<Vec<CondDesc>>,
    /// Math functions; never populated here.
    pub math_funcs: Option<Vec<MathFuncDesc>>,
    /// Parameter definitions; never populated here.
    pub param_defs: Option<Vec<ParamDefDesc>>,
}

impl Features {
    /// The "no features of any kind" record: every category unpopulated.
    pub fn empty() -> (r: Features)
        ensures
            r.binaries is None,
            r.conditions is None,
            r.math_funcs is None,
            r.param_defs is None,
    {
        Features { binaries: None, conditions: None, math_funcs: None, param_defs: None }
    }

    /// Transplants an owned builtin descriptor list into the record.
    pub fn with_binaries(self, list: Vec<BinDesc>) -> (r: Features)
        ensures
            r.binaries == Some(list),
            r.conditions == self.conditions,
            r.math_funcs == self.math_funcs,
            r.param_defs == self.param_defs,
    {
        Features { binaries: Some(list), ..self }
    }

    /// A mutable view over the transplanted builtin descriptors, for
    /// patching the dispatch function into each of them in place.
    pub fn get_binaries(&mut self) -> (r: &mut Vec<BinDesc>)
        requires
            old(self).binaries is Some,
        ensures
            *r == old(self).binaries->Some_0,
            final(self).binaries == Some(*final(r)),
            final(self).conditions == old(self).conditions,
            final(self).math_funcs == old(self).math_funcs,
            final(self).param_defs == old(self).param_defs,
    {
        match &mut self.binaries {
            Some(list) => list,
            None => vstd::pervasive::unreached(),
        }
    }

    /// Empties every category, returning the builtin list if one was
    /// transplanted. After this the record is back in the `empty` state,
    /// so a second release finds nothing to reclaim.
    pub fn release(&mut self) -> (r: Option<Vec<BinDesc>>)
        ensures
            r == old(self).binaries,
            final(self).binaries is None,
            final(self).conditions is None,
            final(self).math_funcs is None,
            final(self).param_defs is None,
    {
        let taken = free_list(&mut self.binaries);
        let _ = free_list(&mut self.conditions);
        let _ = free_list(&mut self.math_funcs);
        let _ = free_list(&mut self.param_defs);
        taken
    }
}

} // verus!

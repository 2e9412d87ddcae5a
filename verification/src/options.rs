//! The option view handed to command handlers.
//!
//! The host records which single-character options a command was invoked
//! with in a 256-entry index table: entry `c` is 0 when option `c` is
//! absent, has bit 0 set when it was given with `-`, bit 1 when it was
//! given with `+`, and, when the option carried an argument, holds
//! `(k + 1) << 2` where `k` is the argument's position in the option
//! argument list. The boundary code copies that table and the attached
//! argument strings into this owned, bounds-checked view.

use vstd::prelude::*;

verus! {

/// The number of entries in the host's option index table.
pub const OPTION_TABLE_LEN: usize = 256;

/// A bounds-checked view over the options passed to a command.
pub struct Opts {
    ind: Vec<u8>,
    args: Vec<Vec<u8>>,
}

impl Opts {
    /// The option index table.
    pub closed spec fn view_ind(&self) -> Seq<u8> {
        self.ind@
    }

    /// The option argument strings.
    pub closed spec fn view_args(&self) -> Seq<Seq<u8>> {
        self.args.deep_view()
    }

    /// The table has one entry per possible option character, and every
    /// entry that points at an option argument points inside the argument
    /// list.
    pub open spec fn wf(&self) -> bool {
        &&& self.view_ind().len() == OPTION_TABLE_LEN
        &&& forall|c: int| 0 <= c < self.view_ind().len() && #[trigger] self.view_ind()[c] > 3
            ==> (self.view_ind()[c] >> 2) - 1 < self.view_args().len()
    }

    /// Wraps an owned index table and argument list, refusing a table of
    /// the wrong size or one whose entries point outside the argument list.
    pub fn new(ind: Vec<u8>, args: Vec<Vec<u8>>) -> (r: Option<Opts>)
        ensures
            match r {
                Some(o) => o.wf() && o.view_ind() == ind@ && o.view_args() == args.deep_view(),
                None => ind@.len() != OPTION_TABLE_LEN
                    || exists|c: int| 0 <= c < ind@.len() && #[trigger] ind@[c] > 3
                        && (ind@[c] >> 2) - 1 >= args.deep_view().len(),
            },
    {
        if ind.len() != OPTION_TABLE_LEN {
            return None;
        }
        proof {
            assert(args.deep_view().len() == args@.len());
        }
        let mut c: usize = 0;
        while c < ind.len()
            invariant
                c <= ind@.len(),
                args.deep_view().len() == args@.len(),
                forall|j: int| 0 <= j < c && #[trigger] ind@[j] > 3
                    ==> (ind@[j] >> 2) - 1 < args.deep_view().len(),
            decreases ind@.len() - c,
        {
            let entry = ind[c];
            if entry > 3 {
                assert(entry >> 2 >= 1) by (bit_vector)
                    requires
                        entry > 3,
                ;
                let pos = (entry >> 2) as usize - 1;
                if pos >= args.len() {
                    return None;
                }
            }
            c += 1;
        }
        Some(Opts { ind, args })
    }

    /// Whether option `c` was set with a minus sign.
    pub fn is_minus(&self, c: u8) -> (r: bool)
        requires
            self.wf(),
        ensures
            r == ((self.view_ind()[c as int] & 1) != 0),
    {
        (self.ind[c as usize] & 1) != 0
    }

    /// Whether option `c` was set with a plus sign.
    pub fn is_plus(&self, c: u8) -> (r: bool)
        requires
            self.wf(),
        ensures
            r == ((self.view_ind()[c as int] & 2) != 0),
    {
        (self.ind[c as usize] & 2) != 0
    }

    /// Whether option `c` was set at all.
    pub fn is_set(&self, c: u8) -> (r: bool)
        requires
            self.wf(),
        ensures
            r == (self.view_ind()[c as int] != 0),
    {
        self.ind[c as usize] != 0
    }

    /// The argument attached to option `c`, if one was passed.
    pub fn get_arg(&self, c: u8) -> (r: Option<&Vec<u8>>)
        requires
            self.wf(),
        ensures
            self.view_ind()[c as int] > 3 ==> (match r {
                Some(v) => v.deep_view()
                    == self.view_args()[(self.view_ind()[c as int] >> 2) - 1],
                None => false,
            }),
            self.view_ind()[c as int] <= 3 ==> r is None,
    {
        let entry = self.ind[c as usize];
        if entry > 3 {
            assert(entry >> 2 >= 1) by (bit_vector)
                requires
                    entry > 3,
            ;
            let pos = (entry >> 2) as usize - 1;
            proof {
                assert(self.args.deep_view().len() == self.args@.len());
                assert(self.args@[pos as int].deep_view() == self.args.deep_view()[pos as int]);
            }
            Some(&self.args[pos])
        } else {
            None
        }
    }
}

} // verus!

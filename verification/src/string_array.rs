//! The argument view handed to command handlers.
//!
//! The host passes a command's arguments as a NUL-terminated array of C
//! strings. The boundary code walks that array once and hands the library
//! this owned, bounds-checked sequence of byte strings; an empty argument
//! array is a valid view of length zero.

use vstd::prelude::*;

use crate::bytes::has_nul;

verus! {

/// A bounds-checked view over a command's argument strings.
pub struct CStrArray {
    items: Vec<Vec<u8>>,
}

impl CStrArray {
    /// The arguments as a sequence of byte sequences.
    pub closed spec fn view_items(&self) -> Seq<Seq<u8>> {
        self.items.deep_view()
    }

    /// Every argument is a valid C string payload: no embedded NUL.
    pub open spec fn wf(&self) -> bool {
        forall|i: int| 0 <= i < self.view_items().len() ==> !has_nul(#[trigger] self.view_items()[i])
    }

    /// Wraps an owned argument list.
    pub fn from_items(items: Vec<Vec<u8>>) -> (r: CStrArray)
        requires
            forall|i: int| 0 <= i < items.deep_view().len() ==> !has_nul(#[trigger] items.deep_view()[i]),
        ensures
            r.view_items() == items.deep_view(),
            r.wf(),
    {
        CStrArray { items }
    }

    /// The number of arguments in the view.
    pub fn len(&self) -> (r: usize)
        ensures
            r == self.view_items().len(),
    {
        proof {
            assert(self.items.deep_view().len() == self.items@.len());
        }
        self.items.len()
    }

    /// The argument at `index`, or `None` when the index is out of bounds.
    pub fn get(&self, index: usize) -> (r: Option<&Vec<u8>>)
        ensures
            index < self.view_items().len() ==> (match r {
                Some(v) => v.deep_view() == self.view_items()[index as int],
                None => false,
            }),
            index >= self.view_items().len() ==> r is None,
    {
        proof {
            assert(self.items.deep_view().len() == self.items@.len());
        }
        if index < self.items.len() {
            proof {
                assert(self.items@[index as int].deep_view() == self.items.deep_view()[index as int]);
            }
            Some(&self.items[index])
        } else {
            None
        }
    }
}

} // verus!

//! An owned, checked file path.
//!
//! Callers that hand the host a script path want the existence check done
//! up front, with the display string and its character length cached
//! beside the path.

use vstd::prelude::*;
use vstd::string::StrSliceExecFns;

use crate::error::ZError;
use crate::MaybeZError;

verus! {

/// An owned file path with its display string and character length.
pub struct FilePath {
    /// The path itself.
    pub path: String,
    /// The display string; always equal to the path.
    pub string: String,
    /// The path's length in characters.
    pub length: usize,
}

impl FilePath {
    /// The cached display string and length agree with the path.
    pub open spec fn wf(&self) -> bool {
        &&& self.string@ == self.path@
        &&& self.length == self.path@.len()
    }

    /// A checked path: fails with [`ZError::FileNotFound`] when nothing
    /// exists at it. Whether something exists is the file system's answer
    /// at the moment of the call.
    pub fn new(pathlike: &str) -> (r: Result<FilePath, ZError>)
        ensures
            match r {
                Ok(p) => p.wf() && p.path@ == pathlike@,
                Err(e) => e is FileNotFound,
            },
    {
        if !path_exists(pathlike) {
            return Err(ZError::FileNotFound);
        }
        Ok(Self::new_unchecked(pathlike))
    }

    /// An unchecked path: caches the display string and length without
    /// asking the file system anything.
    pub fn new_unchecked(pathlike: &str) -> (r: FilePath)
        ensures
            r.wf(),
            r.path@ == pathlike@,
    {
        let path = String::from_str(pathlike);
        let string = String::from_str(pathlike);
        let length = pathlike.unicode_len();
        FilePath { path, string, length }
    }

    /// Validates a replacement path, failing exactly as [`Self::new`]
    /// does. The checked value itself is discarded.
    pub fn set(self, new_pathlike_value: &str) -> (r: MaybeZError)
        ensures
            r matches Err(e) ==> e is FileNotFound,
    {
        match Self::new(new_pathlike_value) {
            Ok(_) => Ok(()),
            Err(e) => Err(e),
        }
    }
}

/// Relies on std::path::Path::exists: asks the file system whether
/// anything exists at the path. The answer depends on the state of the
/// disk at the moment of the call, so nothing is promised of it.
#[verifier::external_body]
fn path_exists(path: &str) -> bool {
    std::path::Path::new(path).exists()
}

} // verus!

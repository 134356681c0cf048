//! The version tag that wraps every versioned record on the wire.

use vstd::prelude::*;

verus! {

/// A versioned record as it is written out: the version number beside the
/// record itself.
pub struct VersionSerializeWrapper<T> {
    pub version: u64,
    pub inner: T,
}

} // verus!

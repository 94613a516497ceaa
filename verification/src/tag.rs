use vstd::prelude::*;

use crate::ticket::BlobFormat;

verus! {

/// One entry of a list-tags response.
#[derive(Clone, PartialEq, Eq, Debug)]
pub struct TagInfo {
    /// The tag.
    pub name: Vec<u8>,
    /// The format of the associated blob.
    pub format: BlobFormat,
    /// The hash of the associated blob.
    pub hash: crate::ticket::Hash,
}

} // verus!

//! Identity types: the content hash that names a requested item and the
//! opaque identity of a remote peer.
//!
//! Both are plain fixed-size byte values. The retrieval core never inspects
//! them; it only threads them through requests and attributes results to
//! peers with them.

use vstd::prelude::*;

verus! {

/// The content hash identifying one requested data item, such as one block's
/// body.
#[derive(Clone, Copy, Debug, PartialEq, Eq, Hash)]
pub struct BlockHash {
    /// The raw hash bytes.
    pub bytes: [u8; 32],
}

/// The opaque identity of a remote peer, used as a tag on results and as the
/// argument of a bad-message report.
#[derive(Clone, Copy, Debug, PartialEq, Eq, Hash)]
pub struct PeerId {
    /// The raw identity bytes.
    pub bytes: [u8; 64],
}

} // verus!

//! The base capability every peer data-retrieval client provides, whatever
//! item type it fetches.

use vstd::prelude::*;
use crate::ident::PeerId;

verus! {

/// The minimal contract of a download client: report a misbehaving peer to
/// whatever reputation system sits outside this core, and say how many peers
/// are currently usable.
pub trait DownloadClient {
    /// Records, for consumption by an external reputation system, that the
    /// named peer produced an invalid or unusable response.
    ///
    /// Never blocks and never fails; reporting an unknown peer is a silent
    /// no-op. The core promises nothing of the reputation state itself,
    /// which lives outside this library.
    fn report_bad_message(&self, peer: PeerId);

    /// The number of peers this client currently considers usable.
    ///
    /// Advisory only: the count may change between this call and any
    /// subsequent request, so no contract ties it to later outcomes.
    fn num_connected_peers(&self) -> usize;
}

} // verus!

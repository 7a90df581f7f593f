//! The outcome type of a request: a payload attributed to the peer that
//! supplied it, or a typed failure attributed to its cause and, where one can
//! be determined, to the offending peer.

use vstd::prelude::*;
use crate::ident::PeerId;

verus! {

/// Why a request could not be satisfied.
///
/// Every failure that a specific peer caused carries that peer's identity,
/// so the caller can pair it with a bad-message report; `NoConnectedPeers`
/// is attributable to no peer at all.
#[derive(Clone, Copy, Debug, PartialEq, Eq)]
pub enum RequestError {
    /// No connected peer could plausibly serve the request.
    NoConnectedPeers,
    /// The named peer did not respond in time.
    Timeout {
        /// The peer that was asked.
        peer: PeerId,
    },
    /// The named peer disconnected before answering.
    Disconnected {
        /// The peer that was asked.
        peer: PeerId,
    },
    /// The named peer returned malformed or irrelevant data.
    BadResponse {
        /// The peer that answered.
        peer: PeerId,
    },
}

impl RequestError {
    /// The peer a failure is attributed to, if one can be determined.
    pub open spec fn spec_attributed_peer(self) -> Option<PeerId> {
        match self {
            RequestError::NoConnectedPeers => None,
            RequestError::Timeout { peer } => Some(peer),
            RequestError::Disconnected { peer } => Some(peer),
            RequestError::BadResponse { peer } => Some(peer),
        }
    }

    /// Returns the peer this failure is attributed to, or `None` for a
    /// failure that no specific peer caused.
    pub fn attributed_peer(&self) -> (r: Option<PeerId>)
        ensures
            r == self.spec_attributed_peer(),
    {
        match self {
            RequestError::NoConnectedPeers => None,
            RequestError::Timeout { peer } => Some(*peer),
            RequestError::Disconnected { peer } => Some(*peer),
            RequestError::BadResponse { peer } => Some(*peer),
        }
    }
}

/// A payload together with the identity of the peer that supplied it.
#[derive(Clone, Copy, Debug, PartialEq, Eq)]
pub struct WithPeerId<T> {
    /// The peer that supplied the payload.
    pub peer: PeerId,
    /// The payload itself.
    pub value: T,
}

/// The outcome of any request issued through the retrieval contract: the
/// payload attributed to the serving peer, or a typed failure.
pub type PeerRequestResult<T> = Result<WithPeerId<T>, RequestError>;

} // verus!

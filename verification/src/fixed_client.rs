//! A deterministic in-memory bodies client: it serves a fixed store of
//! bodies attributed to one fixed peer, or fails every non-empty request
//! with a fixed error. Its whole behaviour is pinned by its contract, which
//! makes it a reference implementation of the retrieval contract and the
//! vehicle for the laws that speak of repeated requests.

use vstd::prelude::*;
use crate::bodies::{first_of_batch, BodiesClient, RangeHint};
use crate::download::DownloadClient;
use crate::error::{PeerRequestResult, RequestError, WithPeerId};
use crate::ident::{BlockHash, PeerId};
use crate::priority::Priority;

verus! {

/// A bodies client whose responses are fixed in advance.
///
/// A request for `n > 0` hashes either fails with the fixed `failure`, when
/// one is set, or succeeds with the first `min(n, bodies.len())` stored
/// bodies in store order, attributed to the fixed `peer`. An empty request
/// always succeeds with an empty batch. Hashes are not matched against the
/// store: bodies are served by position, as the contract leaves response
/// alignment to the implementation.
pub struct FixedBodiesClient<B> {
    /// The peer every successful response is attributed to.
    pub peer: PeerId,
    /// The bodies this client serves, in order.
    pub bodies: Vec<B>,
    /// When set, every non-empty request fails with this error.
    pub failure: Option<RequestError>,
    /// The advisory count of usable peers.
    pub connected: usize,
}

impl<B> FixedBodiesClient<B> {
    /// How many bodies a request for `requested` hashes is served: all the
    /// stored ones, capped at the requested count.
    pub open spec fn served_len(self, requested: int) -> int {
        if self.bodies@.len() <= requested {
            self.bodies@.len() as int
        } else {
            requested
        }
    }

    /// The bodies a successful request for `requested` hashes returns.
    pub open spec fn served_bodies(self, requested: int) -> Seq<B> {
        self.bodies@.take(self.served_len(requested))
    }
}

impl<B> DownloadClient for FixedBodiesClient<B> {
    /// A fixed client keeps no reputation state, so a report is a no-op.
    fn report_bad_message(&self, _peer: PeerId) {
    }

    fn num_connected_peers(&self) -> usize {
        self.connected
    }
}

impl<B: Copy> BodiesClient for FixedBodiesClient<B> {
    type Body = B;

    /// The fixed client's outcome is a function of its own state and the
    /// number of requested hashes alone: the priority and the range hint
    /// are routing hints with no one else to route to, and the outcome is
    /// pinned exactly — which is what the idempotence law rests on.
    open spec fn batch_post(
        &self,
        hashes: Seq<BlockHash>,
        priority: Priority,
        range_hint: Option<RangeHint>,
        r: PeerRequestResult<Vec<B>>,
    ) -> bool {
        if hashes.len() == 0 {
            &&& r is Ok
            &&& r->Ok_0.peer == self.peer
            &&& r->Ok_0.value@ =~= Seq::<B>::empty()
        } else {
            match self.failure {
                Some(e) => r == Err::<WithPeerId<Vec<B>>, RequestError>(e),
                None => {
                    &&& r is Ok
                    &&& r->Ok_0.peer == self.peer
                    &&& r->Ok_0.value@ =~= self.served_bodies(hashes.len() as int)
                },
            }
        }
    }

    fn get_block_bodies_with_priority_and_range_hint(
        &self,
        hashes: Vec<BlockHash>,
        _priority: Priority,
        _range_hint: Option<RangeHint>,
    ) -> (r: PeerRequestResult<Vec<B>>) {
        if hashes.len() == 0 {
            Ok(WithPeerId { peer: self.peer, value: Vec::new() })
        } else {
            match self.failure {
                Some(e) => Err(e),
                None => {
                    let n: usize = if self.bodies.len() < hashes.len() {
                        self.bodies.len()
                    } else {
                        hashes.len()
                    };
                    let mut served: Vec<B> = Vec::new();
                    let mut i: usize = 0;
                    while i < n
                        invariant
                            i <= n,
                            n <= self.bodies.len(),
                            served@ =~= self.bodies@.take(i as int),
                        decreases n - i,
                    {
                        served.push(self.bodies[i]);
                        i = i + 1;
                    }
                    Ok(WithPeerId { peer: self.peer, value: served })
                },
            }
        }
    }
}

/// For a fixed client, a batch fetch at one priority or range hint admits
/// exactly the outcomes it admits at any other: both are routing hints with
/// no bearing on what is returned. Together with the contract of each fetch
/// method this makes every convenience method behave exactly as the batch
/// primitive does on the defaults it fills in.
pub proof fn lemma_fixed_outcome_ignores_hints<B: Copy>(
    c: FixedBodiesClient<B>,
    hashes: Seq<BlockHash>,
    p1: Priority,
    h1: Option<RangeHint>,
    p2: Priority,
    h2: Option<RangeHint>,
    r: PeerRequestResult<Vec<B>>,
)
    ensures
        c.batch_post(hashes, p1, h1, r) == c.batch_post(hashes, p2, h2, r),
{
}

/// Idempotence of single-body requests: two outcomes the same unchanged
/// fixed client can produce for the same one-element request resolve to
/// structurally equal single-body results — equal successes or equal
/// failures — and the two adapter instances that resolve them share no
/// state, each owning its own batch outcome.
pub proof fn lemma_single_request_idempotent<B: Copy>(
    c: FixedBodiesClient<B>,
    hash: BlockHash,
    priority: Priority,
    r1: PeerRequestResult<Vec<B>>,
    r2: PeerRequestResult<Vec<B>>,
)
    requires
        c.batch_post(seq![hash], priority, Option::<RangeHint>::None, r1),
        c.batch_post(seq![hash], priority, Option::<RangeHint>::None, r2),
    ensures
        first_of_batch(r1) == first_of_batch(r2),
{
}

} // verus!

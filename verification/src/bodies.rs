//! The block-body retrieval contract: batch fetches with priority and an
//! optional range hint, and the single-body convenience requests layered on
//! top of the one batch primitive.

use vstd::prelude::*;
use crate::download::DownloadClient;
use crate::error::{PeerRequestResult, RequestError, WithPeerId};
use crate::ident::BlockHash;
use crate::priority::Priority;

verus! {

/// An optional routing hint: an inclusive interval of block heights the
/// requested hashes are expected to fall in. It is a hint, not a guarantee;
/// an implementation may use it to route the request to peers likely to hold
/// a contiguous slice of history, and must not reject a request over it.
#[derive(Clone, Copy, Debug, PartialEq, Eq)]
pub struct RangeHint {
    /// The lowest block height of the interval.
    pub earliest: u64,
    /// The highest block height of the interval, inclusive.
    pub latest: u64,
}

/// What every batch outcome must satisfy, whatever the implementation and
/// whatever the network did: a successful batch holds at most as many bodies
/// as were requested, and an empty request always succeeds with an empty
/// batch, never fails.
pub open spec fn valid_batch_outcome<B>(requested: int, r: PeerRequestResult<Vec<B>>) -> bool {
    &&& r is Ok ==> r->Ok_0.value@.len() <= requested
    &&& requested == 0 ==> r is Ok && r->Ok_0.value@.len() == 0
}

/// The projection a single-body request applies to the outcome of its
/// underlying one-element batch: a failure passes through unchanged, a
/// successful batch yields its first body, or no body when it is empty.
pub open spec fn first_of_batch<B>(r: PeerRequestResult<Vec<B>>) -> PeerRequestResult<Option<B>> {
    match r {
        Ok(w) => Ok(
            WithPeerId {
                peer: w.peer,
                value: if w.value@.len() == 0 {
                    None
                } else {
                    Some(w.value@[0])
                },
            },
        ),
        Err(e) => Err(e),
    }
}

/// A client capable of downloading block bodies.
///
/// The batch fetch with priority and range hint is the one primitive; every
/// other fetch method is defined in terms of it, so priority handling, hint
/// handling and peer attribution are implemented exactly once per client.
pub trait BodiesClient: DownloadClient {
    /// The body type this client fetches.
    type Body;

    /// The postcondition this implementation guarantees of every batch
    /// fetch. The convenience methods promise the same predicate with the
    /// defaults they fill in (`Normal` priority, no hint), which is what
    /// makes them behave exactly as the primitive does on those arguments.
    spec fn batch_post(
        &self,
        hashes: Seq<BlockHash>,
        priority: Priority,
        range_hint: Option<RangeHint>,
        r: PeerRequestResult<Vec<Self::Body>>,
    ) -> bool;

    /// Fetches the block bodies for the requested hashes, with a priority
    /// and an optional `[earliest, latest]` height hint for routing.
    ///
    /// This is the primitive every other fetch method is built on.
    fn get_block_bodies_with_priority_and_range_hint(
        &self,
        hashes: Vec<BlockHash>,
        priority: Priority,
        range_hint: Option<RangeHint>,
    ) -> (r: PeerRequestResult<Vec<Self::Body>>)
        ensures
            valid_batch_outcome(hashes@.len() as int, r),
            self.batch_post(hashes@, priority, range_hint, r),
    ;

    /// Fetches the block bodies for the requested hashes with a priority and
    /// no range hint: exactly the primitive with an absent hint.
    fn get_block_bodies_with_priority(
        &self,
        hashes: Vec<BlockHash>,
        priority: Priority,
    ) -> (r: PeerRequestResult<Vec<Self::Body>>)
        ensures
            valid_batch_outcome(hashes@.len() as int, r),
            self.batch_post(hashes@, priority, Option::<RangeHint>::None, r),
    {
        self.get_block_bodies_with_priority_and_range_hint(hashes, priority, None)
    }

    /// Fetches the block bodies for the requested hashes at default
    /// priority: exactly the primitive with `Normal` priority and no hint.
    fn get_block_bodies(&self, hashes: Vec<BlockHash>) -> (r: PeerRequestResult<
        Vec<Self::Body>,
    >)
        ensures
            valid_batch_outcome(hashes@.len() as int, r),
            self.batch_post(hashes@, Priority::Normal, Option::<RangeHint>::None, r),
    {
        self.get_block_bodies_with_priority(hashes, Priority::Normal)
    }

    /// Fetches a single block body through the batch primitive, as a request
    /// that still has to be resolved: the underlying batch outcome is that
    /// of the one-element batch `[hash]` at the given priority.
    fn get_block_body_with_priority(&self, hash: BlockHash, priority: Priority) -> (r:
        SingleBodyRequest<Self::Body>)
        ensures
            valid_batch_outcome(1, r.batch()),
            self.batch_post(seq![hash], priority, Option::<RangeHint>::None, r.batch()),
    {
        let mut hashes: Vec<BlockHash> = Vec::new();
        hashes.push(hash);
        let resp = self.get_block_bodies_with_priority(hashes, priority);
        SingleBodyRequest::new(resp)
    }

    /// Fetches a single block body at default priority, through the batch
    /// primitive and the single-body adapter.
    fn get_block_body(&self, hash: BlockHash) -> (r: SingleBodyRequest<Self::Body>)
        ensures
            valid_batch_outcome(1, r.batch()),
            self.batch_post(seq![hash], Priority::Normal, Option::<RangeHint>::None, r.batch()),
    {
        self.get_block_body_with_priority(hash, Priority::Normal)
    }
}

/// A pending single-body request: the adapter that turns the outcome of a
/// one-element batch fetch into a single optional body.
///
/// It owns its batch outcome exclusively and resolving consumes it, so one
/// adapter instance serves exactly one request and cannot be reused; two
/// adapter instances share no state.
#[must_use]
#[derive(Debug)]
pub struct SingleBodyRequest<B> {
    response: PeerRequestResult<Vec<B>>,
}

impl<B> SingleBodyRequest<B> {
    /// The outcome of the wrapped batch fetch.
    pub closed spec fn batch(self) -> PeerRequestResult<Vec<B>> {
        self.response
    }

    /// Wraps the outcome of a batch fetch that was constructed from exactly
    /// one requested hash.
    pub fn new(response: PeerRequestResult<Vec<B>>) -> (r: Self)
        ensures
            r.batch() == response,
    {
        SingleBodyRequest { response }
    }

    /// Resolves the request to a single optional body: a failure of the
    /// wrapped batch passes through unchanged, a successful batch yields its
    /// first body — or no body when the batch is empty, which is a valid
    /// outcome, not a failure — and any further bodies are discarded.
    pub fn resolve(self) -> (r: PeerRequestResult<Option<B>>)
        ensures
            r == first_of_batch(self.batch()),
    {
        match self.response {
            Err(e) => Err(e),
            Ok(w) => {
                let WithPeerId { peer, value } = w;
                let mut bodies = value;
                let first = if bodies.len() == 0 {
                    None
                } else {
                    Some(bodies.remove(0))
                };
                Ok(WithPeerId { peer, value: first })
            },
        }
    }
}

/// Resolution of a single-body request is transparent: for every batch
/// outcome, a failure resolves to the identical failure, a success with an
/// empty batch resolves to success with no body, and a success with a
/// non-empty batch resolves to success with the first body, attributed to
/// the same peer in every case.
pub proof fn lemma_single_resolution<B>(b: PeerRequestResult<Vec<B>>)
    ensures
        first_of_batch(b) is Ok <==> b is Ok,
        b is Err ==> first_of_batch(b) == Err::<WithPeerId<Option<B>>, RequestError>(b->Err_0),
        b is Ok && b->Ok_0.value@.len() == 0 ==> first_of_batch(b) == Ok::<
            WithPeerId<Option<B>>,
            RequestError,
        >((WithPeerId { peer: b->Ok_0.peer, value: None })),
        b is Ok && b->Ok_0.value@.len() > 0 ==> first_of_batch(b) == Ok::<
            WithPeerId<Option<B>>,
            RequestError,
        >((WithPeerId { peer: b->Ok_0.peer, value: Some(b->Ok_0.value@[0]) })),
{
}

} // verus!

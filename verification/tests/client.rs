use bodies_client::bodies::{BodiesClient, RangeHint};
use bodies_client::download::DownloadClient;
use bodies_client::error::{RequestError, WithPeerId};
use bodies_client::fixed_client::FixedBodiesClient;
use bodies_client::ident::{BlockHash, PeerId};
use bodies_client::priority::Priority;

#[derive(Clone, Copy, Debug, PartialEq, Eq)]
struct TestBody(u32);

fn hash(tag: u8) -> BlockHash {
    BlockHash { bytes: [tag; 32] }
}

fn peer(tag: u8) -> PeerId {
    PeerId { bytes: [tag; 64] }
}

fn serving_client(tag: u8, bodies: Vec<TestBody>) -> FixedBodiesClient<TestBody> {
    FixedBodiesClient { peer: peer(tag), bodies, failure: None, connected: 1 }
}

fn failing_client(error: RequestError) -> FixedBodiesClient<TestBody> {
    FixedBodiesClient { peer: peer(0), bodies: vec![], failure: Some(error), connected: 1 }
}

#[test]
fn get_block_bodies_equals_primitive_with_defaults() {
    let c = serving_client(1, vec![TestBody(10), TestBody(20)]);
    let ids = vec![hash(1), hash(2)];
    assert_eq!(
        c.get_block_bodies(ids.clone()),
        c.get_block_bodies_with_priority_and_range_hint(ids, Priority::Normal, None),
    );
}

#[test]
fn get_block_bodies_equals_primitive_with_defaults_on_failure() {
    let c = failing_client(RequestError::NoConnectedPeers);
    let ids = vec![hash(1)];
    assert_eq!(
        c.get_block_bodies(ids.clone()),
        c.get_block_bodies_with_priority_and_range_hint(ids, Priority::Normal, None),
    );
}

#[test]
fn get_block_bodies_with_priority_equals_primitive_without_hint() {
    let c = serving_client(2, vec![TestBody(7)]);
    let ids = vec![hash(3), hash(4)];
    assert_eq!(
        c.get_block_bodies_with_priority(ids.clone(), Priority::High),
        c.get_block_bodies_with_priority_and_range_hint(ids, Priority::High, None),
    );
}

#[test]
fn empty_request_succeeds_with_empty_batch() {
    let c = serving_client(1, vec![TestBody(1)]);
    assert_eq!(
        c.get_block_bodies(vec![]),
        Ok(WithPeerId { peer: peer(1), value: vec![] }),
    );
}

#[test]
fn empty_request_never_fails_whatever_priority_or_hint() {
    let c = failing_client(RequestError::Timeout { peer: peer(8) });
    let hint = Some(RangeHint { earliest: 5, latest: 9 });
    assert_eq!(
        c.get_block_bodies_with_priority_and_range_hint(vec![], Priority::High, hint),
        Ok(WithPeerId { peer: peer(0), value: vec![] }),
    );
    assert_eq!(
        c.get_block_bodies_with_priority(vec![], Priority::Normal),
        Ok(WithPeerId { peer: peer(0), value: vec![] }),
    );
}

#[test]
fn single_request_is_idempotent_on_success() {
    let c = serving_client(4, vec![TestBody(11)]);
    let first = c.get_block_body(hash(6)).resolve();
    let second = c.get_block_body(hash(6)).resolve();
    assert_eq!(first, second);
    assert_eq!(first, Ok(WithPeerId { peer: peer(4), value: Some(TestBody(11)) }));
}

#[test]
fn single_request_is_idempotent_on_failure() {
    let c = failing_client(RequestError::BadResponse { peer: peer(2) });
    let first = c.get_block_body(hash(6)).resolve();
    let second = c.get_block_body(hash(6)).resolve();
    assert_eq!(first, second);
    assert_eq!(first, Err(RequestError::BadResponse { peer: peer(2) }));
}

#[test]
fn batch_with_priority_and_range_hint_in_request_order() {
    let c = serving_client(1, vec![TestBody(100), TestBody(101), TestBody(102)]);
    let ids = vec![hash(10), hash(11), hash(12)];
    let hint = Some(RangeHint { earliest: 100, latest: 102 });
    assert_eq!(
        c.get_block_bodies_with_priority_and_range_hint(ids, Priority::High, hint),
        Ok(WithPeerId {
            peer: peer(1),
            value: vec![TestBody(100), TestBody(101), TestBody(102)],
        }),
    );
    assert_eq!(
        c.get_block_body(hash(10)).resolve(),
        Ok(WithPeerId { peer: peer(1), value: Some(TestBody(100)) }),
    );
}

#[test]
fn single_request_for_body_no_peer_holds_resolves_to_none() {
    let c = serving_client(3, vec![]);
    assert_eq!(
        c.get_block_body(hash(40)).resolve(),
        Ok(WithPeerId { peer: peer(3), value: None }),
    );
}

#[test]
fn single_request_forwards_peer_timeout_with_attribution() {
    let p = peer(7);
    let c = failing_client(RequestError::Timeout { peer: p });
    let resolved = c.get_block_body(hash(50)).resolve();
    assert_eq!(resolved, Err(RequestError::Timeout { peer: p }));
    match resolved {
        Err(e) => assert_eq!(e.attributed_peer(), Some(p)),
        Ok(_) => panic!("expected a failure"),
    }
}

#[test]
fn two_in_flight_requests_resolve_independently_in_either_order() {
    let c = serving_client(1, vec![TestBody(10)]);
    let expected = Ok(WithPeerId { peer: peer(1), value: Some(TestBody(10)) });

    let first = c.get_block_body(hash(1));
    let second = c.get_block_body(hash(2));
    assert_eq!(second.resolve(), expected);
    assert_eq!(first.resolve(), expected);

    let first = c.get_block_body(hash(1));
    let second = c.get_block_body(hash(2));
    assert_eq!(first.resolve(), expected);
    assert_eq!(second.resolve(), expected);
}

#[test]
fn batch_returns_at_most_the_requested_count() {
    let c = serving_client(1, vec![TestBody(1), TestBody(2), TestBody(3)]);
    assert_eq!(
        c.get_block_bodies(vec![hash(1), hash(2)]),
        Ok(WithPeerId { peer: peer(1), value: vec![TestBody(1), TestBody(2)] }),
    );
}

#[test]
fn short_batch_is_success_not_failure() {
    let c = serving_client(1, vec![TestBody(1)]);
    assert_eq!(
        c.get_block_bodies(vec![hash(1), hash(2), hash(3)]),
        Ok(WithPeerId { peer: peer(1), value: vec![TestBody(1)] }),
    );
}

#[test]
fn download_client_reports_and_counts_peers() {
    let c = serving_client(1, vec![]);
    c.report_bad_message(peer(9));
    assert_eq!(c.num_connected_peers(), 1);
}

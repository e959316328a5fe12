use feed_store::error::{Corruption, FeedError, Limit, Stream};
use feed_store::feed::Feed;
use feed_store::feed_builder::{FeedBuilder, Progress, Reply, Request};
use feed_store::roots::Node;
use tree_index::TreeIndex;

/// What a storage holds, and what was asked of it.
struct Stored {
    bitfield: Option<Vec<u8>>,
    nodes: Vec<Node>,
    log: Vec<Request>,
}

fn node(index: u64, length: u64) -> Node {
    Node { index, hash: vec![index as u8; 32], length }
}

/// The bytes of a tree index in which the first `blocks` blocks are set.
fn tree_of(blocks: u64) -> Vec<u8> {
    let mut tree = TreeIndex::default();
    for block in 0..blocks {
        tree.set(2 * block);
    }
    tree.as_bitfield().to_bytes().unwrap()
}

fn answer(stored: &mut Stored, request: Request) -> Reply {
    stored.log.push(request);
    match request {
        Request::WritePublicKey(_) => Reply::Done,
        Request::WriteSecretKey(_) => Reply::Done,
        Request::ReadBitfield => match &stored.bitfield {
            Some(bytes) => Reply::Bitfield(bytes.clone()),
            None => Reply::Absent,
        },
        Request::GetNode(index) => match stored.nodes.iter().find(|n| n.index == index) {
            Some(found) => Reply::Node(found.clone()),
            None => Reply::Absent,
        },
    }
}

fn reconstruct(builder: FeedBuilder, stored: &mut Stored) -> Result<Feed, FeedError> {
    let (mut construction, mut request) = builder.build();
    loop {
        let reply = answer(stored, request);
        match construction.advance(reply) {
            Progress::Next(c, r) => {
                construction = c;
                request = r;
            }
            Progress::Ready(feed) => return Ok(feed),
            Progress::Failed(e) => return Err(e),
        }
    }
}

const PUBLIC: [u8; 32] = [7; 32];

#[test]
fn fresh_storage_gives_an_empty_feed() {
    let mut stored = Stored { bitfield: None, nodes: vec![], log: vec![] };
    let feed = reconstruct(FeedBuilder::new(PUBLIC), &mut stored).unwrap();
    assert_eq!(feed.len(), 0);
    assert!(feed.is_empty());
    assert_eq!(feed.byte_length(), 0);
    assert!(feed.roots().is_empty());
    assert!(feed.bitfield().is_empty());
    assert!(feed.peers().is_empty());
    assert_eq!(feed.public_key(), &PUBLIC);
    assert_eq!(feed.secret_key(), &None);
    assert_eq!(stored.log, vec![Request::WritePublicKey(PUBLIC), Request::ReadBitfield]);
}

#[test]
fn byte_length_is_the_sum_over_the_roots() {
    let mut stored = Stored {
        bitfield: Some(tree_of(7)),
        nodes: vec![node(3, 10), node(9, 20), node(12, 5)],
        log: vec![],
    };
    let feed = reconstruct(FeedBuilder::new(PUBLIC), &mut stored).unwrap();
    assert_eq!(feed.byte_length(), 35);
    assert_eq!(feed.len(), 7);
    assert_eq!(feed.roots(), &vec![node(3, 10), node(9, 20), node(12, 5)]);
    assert_eq!(feed.bitfield(), &tree_of(7));
    assert_eq!(feed.tree().as_bitfield().to_bytes().unwrap(), tree_of(7));
    assert_eq!(
        stored.log,
        vec![
            Request::WritePublicKey(PUBLIC),
            Request::ReadBitfield,
            Request::GetNode(3),
            Request::GetNode(9),
            Request::GetNode(12),
        ]
    );
}

#[test]
fn a_missing_root_fails_reconstruction() {
    let mut stored = Stored {
        bitfield: Some(tree_of(7)),
        nodes: vec![node(3, 10), node(12, 5)],
        log: vec![],
    };
    let failed = reconstruct(FeedBuilder::new(PUBLIC), &mut stored).unwrap_err();
    assert_eq!(failed, FeedError::CorruptIndex(Corruption::MissingRoot { index: 9 }));
}

#[test]
fn a_node_of_another_index_fails_reconstruction() {
    let (c, _) = FeedBuilder::new(PUBLIC).build();
    let c = match c.advance(Reply::Done) {
        Progress::Next(c, Request::ReadBitfield) => c,
        other => panic!("{:?}", other),
    };
    let c = match c.advance(Reply::Bitfield(tree_of(7))) {
        Progress::Next(c, Request::GetNode(3)) => c,
        other => panic!("{:?}", other),
    };
    match c.advance(Reply::Node(node(4, 1))) {
        Progress::Failed(e) => assert_eq!(
            e,
            FeedError::CorruptIndex(Corruption::WrongNode { expected: 3, found: 4 })
        ),
        other => panic!("{:?}", other),
    }
}

#[test]
fn swapped_nodes_fail_reconstruction() {
    let (c, _) = FeedBuilder::new(PUBLIC).build();
    let c = match c.advance(Reply::Done) {
        Progress::Next(c, _) => c,
        other => panic!("{:?}", other),
    };
    let c = match c.advance(Reply::Bitfield(tree_of(3))) {
        Progress::Next(c, Request::GetNode(1)) => c,
        other => panic!("{:?}", other),
    };
    match c.advance(Reply::Node(node(4, 6))) {
        Progress::Failed(e) => assert_eq!(
            e,
            FeedError::CorruptIndex(Corruption::WrongNode { expected: 1, found: 4 })
        ),
        other => panic!("{:?}", other),
    }
}

#[test]
fn a_root_handed_back_for_the_next_fetch_fails_reconstruction() {
    let (c, _) = FeedBuilder::new(PUBLIC).build();
    let c = match c.advance(Reply::Done) {
        Progress::Next(c, _) => c,
        other => panic!("{:?}", other),
    };
    let c = match c.advance(Reply::Bitfield(tree_of(3))) {
        Progress::Next(c, _) => c,
        other => panic!("{:?}", other),
    };
    let c = match c.advance(Reply::Node(node(1, 6))) {
        Progress::Next(c, Request::GetNode(4)) => c,
        other => panic!("{:?}", other),
    };
    match c.advance(Reply::Node(node(1, 6))) {
        Progress::Failed(e) => assert_eq!(
            e,
            FeedError::CorruptIndex(Corruption::WrongNode { expected: 4, found: 1 })
        ),
        other => panic!("{:?}", other),
    }
}

#[test]
fn nodes_fill_the_slots_they_were_fetched_for() {
    let (c, _) = FeedBuilder::new(PUBLIC).build();
    let c = match c.advance(Reply::Done) {
        Progress::Next(c, _) => c,
        other => panic!("{:?}", other),
    };
    let c = match c.advance(Reply::Bitfield(tree_of(3))) {
        Progress::Next(c, Request::GetNode(1)) => c,
        other => panic!("{:?}", other),
    };
    let c = match c.advance(Reply::Node(node(1, 8))) {
        Progress::Next(c, Request::GetNode(4)) => c,
        other => panic!("{:?}", other),
    };
    match c.advance(Reply::Node(node(4, 6))) {
        Progress::Ready(feed) => {
            assert_eq!(feed.roots(), &vec![node(1, 8), node(4, 6)]);
            assert_eq!(feed.byte_length(), 14);
            assert_eq!(feed.len(), 3);
        }
        other => panic!("{:?}", other),
    }
}

#[test]
fn the_first_missing_root_is_named() {
    let mut stored = Stored { bitfield: Some(tree_of(7)), nodes: vec![node(9, 20)], log: vec![] };
    let failed = reconstruct(FeedBuilder::new(PUBLIC), &mut stored).unwrap_err();
    assert_eq!(failed, FeedError::CorruptIndex(Corruption::MissingRoot { index: 3 }));
    assert_eq!(
        stored.log,
        vec![
            Request::WritePublicKey(PUBLIC),
            Request::ReadBitfield,
            Request::GetNode(3),
            Request::GetNode(9),
            Request::GetNode(12),
        ]
    );
}

#[test]
fn malformed_signing_key_fails_before_the_bitfield_is_read() {
    let mut stored = Stored {
        bitfield: Some(tree_of(7)),
        nodes: vec![node(3, 10), node(9, 20), node(12, 5)],
        log: vec![],
    };
    let builder = FeedBuilder::new(PUBLIC).secret_key(vec![1; 31]);
    let failed = reconstruct(builder, &mut stored).unwrap_err();
    assert_eq!(failed, FeedError::InvalidKey);
    assert_eq!(stored.log, vec![Request::WritePublicKey(PUBLIC)]);
}

#[test]
fn overlong_signing_key_is_refused() {
    let mut stored = Stored { bitfield: None, nodes: vec![], log: vec![] };
    let builder = FeedBuilder::new(PUBLIC).secret_key(vec![1; 33]);
    assert_eq!(reconstruct(builder, &mut stored).unwrap_err(), FeedError::InvalidKey);
}

#[test]
fn signing_key_is_persisted_and_kept() {
    let secret: Vec<u8> = (0u8..32).collect();
    let mut key = [0u8; 32];
    key.copy_from_slice(&secret);
    let mut stored = Stored { bitfield: None, nodes: vec![], log: vec![] };
    let builder = FeedBuilder::new(PUBLIC).secret_key(secret);
    let feed = reconstruct(builder, &mut stored).unwrap();
    assert_eq!(feed.secret_key(), &Some(key));
    assert_eq!(
        stored.log,
        vec![
            Request::WritePublicKey(PUBLIC),
            Request::WriteSecretKey(key),
            Request::ReadBitfield
        ]
    );
}

#[test]
fn storage_failures_name_the_stream() {
    let (c, _) = FeedBuilder::new(PUBLIC).build();
    assert!(matches!(
        c.advance(Reply::Failed),
        Progress::Failed(FeedError::Storage(Stream::PublicKey))
    ));

    let (c, _) = FeedBuilder::new(PUBLIC).secret_key(vec![2; 32]).build();
    let c = match c.advance(Reply::Done) {
        Progress::Next(c, Request::WriteSecretKey(_)) => c,
        other => panic!("{:?}", other),
    };
    assert!(matches!(
        c.advance(Reply::Failed),
        Progress::Failed(FeedError::Storage(Stream::SecretKey))
    ));

    let (c, _) = FeedBuilder::new(PUBLIC).build();
    let c = match c.advance(Reply::Done) {
        Progress::Next(c, _) => c,
        other => panic!("{:?}", other),
    };
    assert!(matches!(
        c.advance(Reply::Failed),
        Progress::Failed(FeedError::Storage(Stream::Bitfield))
    ));

    let (c, _) = FeedBuilder::new(PUBLIC).build();
    let c = match c.advance(Reply::Done) {
        Progress::Next(c, _) => c,
        other => panic!("{:?}", other),
    };
    let c = match c.advance(Reply::Bitfield(tree_of(7))) {
        Progress::Next(c, _) => c,
        other => panic!("{:?}", other),
    };
    let c = match c.advance(Reply::Node(node(3, 1))) {
        Progress::Next(c, Request::GetNode(9)) => c,
        other => panic!("{:?}", other),
    };
    assert!(matches!(
        c.advance(Reply::Failed),
        Progress::Failed(FeedError::Storage(Stream::Node { index: 9 }))
    ));
}

#[test]
fn replies_that_do_not_fit_the_request_are_refused() {
    let (c, _) = FeedBuilder::new(PUBLIC).build();
    assert!(matches!(
        c.advance(Reply::Bitfield(vec![])),
        Progress::Failed(FeedError::UnexpectedReply)
    ));
    let (c, _) = FeedBuilder::new(PUBLIC).build();
    let c = match c.advance(Reply::Done) {
        Progress::Next(c, _) => c,
        other => panic!("{:?}", other),
    };
    assert!(matches!(c.advance(Reply::Done), Progress::Failed(FeedError::UnexpectedReply)));
}

#[test]
fn byte_lengths_beyond_u64_are_refused() {
    let mut stored = Stored {
        bitfield: Some(tree_of(3)),
        nodes: vec![node(1, u64::MAX), node(4, 1)],
        log: vec![],
    };
    let failed = reconstruct(FeedBuilder::new(PUBLIC), &mut stored).unwrap_err();
    assert_eq!(failed, FeedError::OutOfRange(Limit::ByteLength));
}

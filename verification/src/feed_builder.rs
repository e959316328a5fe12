//! Reconstruction of a feed from what storage holds.
//!
//! Reconstruction never touches storage itself. It names the next request,
//! the driver carries it out and reports the reply, and `advance` decides
//! what follows, until the feed is ready or reconstruction has failed.

use vstd::prelude::*;
use crate::error::Corruption;
use crate::error::FeedError;
use crate::error::Limit;
use crate::error::Stream;
use crate::feed::Feed;
use crate::feed::FeedView;
use crate::feed::Peer;
use crate::flat::full_roots;
use crate::flat::is_full_roots;
use crate::keys::accept_secret_key;
use crate::keys::KEY_LENGTH;
use crate::roots::all_filled;
use crate::roots::byte_length;
use crate::roots::is_first_empty;
use crate::roots::lemma_first_empty_exists;
use crate::roots::total_length;
use crate::roots::Node;
use crate::roots::RootSlots;
use crate::tree::committed_blocks;
use crate::tree::fits_tree_index;
use crate::tree::load_tree;
use crate::tree::tree_bytes;

verus! {

/// What the driver has to do with storage next.
#[derive(Debug, Clone, Copy, PartialEq, Eq)]
pub enum Request {
    /// Persist the verifying key.
    WritePublicKey([u8; 32]),
    /// Persist the signing key.
    WriteSecretKey([u8; 32]),
    /// Read the persisted bitfield.
    ReadBitfield,
    /// Fetch the node with this flat index.
    GetNode(u64),
}

/// What the driver reports once it has carried out a request.
#[derive(Debug, Clone, PartialEq, Eq)]
pub enum Reply {
    /// A write went through.
    Done,
    /// Storage failed.
    Failed,
    /// Storage holds nothing under what was asked for.
    Absent,
    /// The bytes of the persisted bitfield.
    Bitfield(Vec<u8>),
    /// The node that storage holds under the requested index.
    Node(Node),
}

/// How far reconstruction has come, with what it has gathered so far.
#[allow(inconsistent_fields)]
#[derive(Debug)]
pub enum Stage {
    /// The verifying key is being written; the signing key is still raw.
    PublicKey { secret_key: Option<Vec<u8>> },
    /// The accepted signing key is being written.
    SecretKey { secret_key: [u8; 32] },
    /// The bitfield is being read.
    Bitfield { secret_key: Option<[u8; 32]> },
    /// Root number `next` is being fetched.
    Roots {
        secret_key: Option<[u8; 32]>,
        bitfield: Vec<u8>,
        tree: tree_index::TreeIndex,
        length: u64,
        slots: RootSlots,
        next: usize,
    },
}

/// A reconstruction under way: it waits for the reply to its last request.
#[derive(Debug)]
pub struct Construction {
    public_key: [u8; 32],
    stage: Stage,
}

/// What a reply leads to.
#[derive(Debug)]
pub enum Progress {
    /// Reconstruction goes on with another request.
    Next(Construction, Request),
    /// The feed is ready.
    Ready(Feed),
    /// Reconstruction has failed as a whole.
    Failed(FeedError),
}

/// The keys from which a feed is reconstructed: the verifying key, and the
/// raw bytes of the signing key where the feed is to be writable.
#[derive(Debug, Clone, PartialEq, Eq)]
pub struct FeedBuilder {
    pub public_key: [u8; 32],
    pub secret_key: Option<Vec<u8>>,
}

/// The bytes of an optional key.
pub open spec fn key_bytes(key: Option<[u8; 32]>) -> Option<Seq<u8>> {
    match key {
        Some(k) => Some(k@),
        None => None,
    }
}

/// The nodes that filled slots hold, in slot order.
pub open spec fn nodes_of(slots: Seq<Option<Node>>) -> Seq<Node> {
    Seq::new(slots.len(), |k: int| slots[k].unwrap())
}

/// What follows once the verifying key is written: a signing key is
/// validated before anything else is requested, and refused for good where
/// its bytes are no key.
pub open spec fn after_public_key(
    public_key: [u8; 32],
    secret_key: Option<Vec<u8>>,
    p: Progress,
) -> bool {
    match secret_key {
        None => p matches Progress::Next(c, request) && {
            &&& c.public_key() == public_key
            &&& c.stage() == (Stage::Bitfield { secret_key: None })
            &&& request == Request::ReadBitfield
        },
        Some(raw) => if raw@.len() == KEY_LENGTH {
            p matches Progress::Next(c, request) && {
                &&& c.public_key() == public_key
                &&& c.stage() matches Stage::SecretKey { secret_key: accepted }
                &&& accepted@ == raw@
                &&& request == Request::WriteSecretKey(accepted)
            }
        } else {
            p == Progress::Failed(FeedError::InvalidKey)
        },
    }
}

/// The number of committed blocks under the bitfield `bytes`: none where
/// the bitfield holds no byte, else what the tree index reads off it.
pub open spec fn blocks_in(bytes: Seq<u8>) -> u64 {
    if bytes.len() == 0 {
        0
    } else {
        committed_blocks(bytes)
    }
}

/// What follows once the bitfield `bytes` is loaded: the feed is ready at
/// once where no block is committed, else the first root is requested.
pub open spec fn after_bitfield(
    public_key: [u8; 32],
    secret_key: Option<[u8; 32]>,
    bytes: Seq<u8>,
    p: Progress,
) -> bool {
    if !fits_tree_index(bytes.len()) {
        p == Progress::Failed(FeedError::OutOfRange(Limit::BitfieldSize))
    } else if blocks_in(bytes) > u64::MAX / 2 {
        p == Progress::Failed(FeedError::OutOfRange(Limit::BlockCount))
    } else if blocks_in(bytes) == 0 {
        p matches Progress::Ready(feed) && feed@ == (FeedView {
            roots: Seq::<Node>::empty(),
            byte_length: 0,
            length: 0,
            bitfield: bytes,
            tree: bytes,
            public_key: public_key@,
            secret_key: key_bytes(secret_key),
            peers: Seq::<Peer>::empty(),
        })
    } else {
        p matches Progress::Next(c, request) && {
            &&& c.public_key() == public_key
            &&& c.stage() matches Stage::Roots { secret_key: key, bitfield, tree, length, slots, next }
            &&& key == secret_key
            &&& bitfield@ == bytes
            &&& tree_bytes(tree) == bytes
            &&& length == blocks_in(bytes)
            &&& is_full_roots(slots.expected(), 0, length as nat)
            &&& slots.slots() == Seq::new(slots.expected().len(), |k: int| None::<Node>)
            &&& next == 0
            &&& request == Request::GetNode(slots.expected()[0])
        }
    }
}

/// What follows once the fetch of root number `next` has ended with the
/// slots holding `filled`: the next root is requested, or, after the last
/// fetch, the feed is put together. Then every slot must be filled, and the
/// feed's byte length is the sum over the roots.
pub open spec fn after_fetch(
    public_key: [u8; 32],
    secret_key: Option<[u8; 32]>,
    bitfield: Vec<u8>,
    tree: tree_index::TreeIndex,
    length: u64,
    expected: Seq<u64>,
    filled: Seq<Option<Node>>,
    next: usize,
    p: Progress,
) -> bool {
    if next + 1 < expected.len() {
        p matches Progress::Next(c, request) && {
            &&& c.public_key() == public_key
            &&& c.stage() matches Stage::Roots {
                secret_key: key2,
                bitfield: bitfield2,
                tree: tree2,
                length: length2,
                slots: slots2,
                next: next2,
            }
            &&& key2 == secret_key
            &&& bitfield2 == bitfield
            &&& tree2 == tree
            &&& length2 == length
            &&& slots2.expected() == expected
            &&& slots2.slots() == filled
            &&& next2 == next + 1
            &&& request == Request::GetNode(expected[next + 1])
        }
    } else if !all_filled(filled) {
        forall|m: int| #[trigger]
            is_first_empty(filled, m) ==> p == Progress::Failed(
                FeedError::CorruptIndex(Corruption::MissingRoot { index: expected[m] }),
            )
    } else if total_length(nodes_of(filled)) > u64::MAX {
        p == Progress::Failed(FeedError::OutOfRange(Limit::ByteLength))
    } else {
        p matches Progress::Ready(feed) && feed@ == (FeedView {
            roots: nodes_of(filled),
            byte_length: total_length(nodes_of(filled)) as u64,
            length,
            bitfield: bitfield@,
            tree: bitfield@,
            public_key: public_key@,
            secret_key: key_bytes(secret_key),
            peers: Seq::<Peer>::empty(),
        })
    }
}

/// What follows once `node` has arrived while root number `next` was being
/// fetched. A node with the index that was asked for goes into slot `next`,
/// and reconstruction goes on as `after_fetch` says; a node with any other
/// index fails reconstruction.
pub open spec fn after_node(
    public_key: [u8; 32],
    secret_key: Option<[u8; 32]>,
    bitfield: Vec<u8>,
    tree: tree_index::TreeIndex,
    length: u64,
    slots: RootSlots,
    next: usize,
    node: Node,
    p: Progress,
) -> bool {
    let expected = slots.expected();
    if node.index != expected[next as int] {
        p == Progress::Failed(
            FeedError::CorruptIndex(
                Corruption::WrongNode { expected: expected[next as int], found: node.index },
            ),
        )
    } else {
        after_fetch(
            public_key,
            secret_key,
            bitfield,
            tree,
            length,
            expected,
            slots.slots().update(next as int, Some(node)),
            next,
            p,
        )
    }
}

/// What `reply` leads to from `stage`.
pub open spec fn advances(public_key: [u8; 32], stage: Stage, reply: Reply, p: Progress) -> bool {
    match stage {
        Stage::PublicKey { secret_key } => match reply {
            Reply::Done => after_public_key(public_key, secret_key, p),
            Reply::Failed => p == Progress::Failed(FeedError::Storage(Stream::PublicKey)),
            _ => p == Progress::Failed(FeedError::UnexpectedReply),
        },
        Stage::SecretKey { secret_key } => match reply {
            Reply::Done => p matches Progress::Next(c, request) && {
                &&& c.public_key() == public_key
                &&& c.stage() == (Stage::Bitfield { secret_key: Some(secret_key) })
                &&& request == Request::ReadBitfield
            },
            Reply::Failed => p == Progress::Failed(FeedError::Storage(Stream::SecretKey)),
            _ => p == Progress::Failed(FeedError::UnexpectedReply),
        },
        Stage::Bitfield { secret_key } => match reply {
            Reply::Bitfield(bytes) => after_bitfield(public_key, secret_key, bytes@, p),
            Reply::Absent => after_bitfield(public_key, secret_key, Seq::<u8>::empty(), p),
            Reply::Failed => p == Progress::Failed(FeedError::Storage(Stream::Bitfield)),
            _ => p == Progress::Failed(FeedError::UnexpectedReply),
        },
        Stage::Roots { secret_key, bitfield, tree, length, slots, next } => match reply {
            Reply::Node(node) => after_node(
                public_key,
                secret_key,
                bitfield,
                tree,
                length,
                slots,
                next,
                node,
                p,
            ),
            Reply::Absent => after_fetch(
                public_key,
                secret_key,
                bitfield,
                tree,
                length,
                slots.expected(),
                slots.slots(),
                next,
                p,
            ),
            Reply::Failed => p == Progress::Failed(
                FeedError::Storage(Stream::Node { index: slots.expected()[next as int] }),
            ),
            _ => p == Progress::Failed(FeedError::UnexpectedReply),
        },
    }
}

impl FeedBuilder {
    /// A builder for a feed with the verifying key `public_key` and no
    /// signing key.
    pub fn new(public_key: [u8; 32]) -> (builder: FeedBuilder)
        ensures
            builder.public_key == public_key,
            builder.secret_key is None,
    {
        FeedBuilder { public_key, secret_key: None }
    }

    /// Sets the raw bytes of the signing key.
    pub fn secret_key(self, secret_key: Vec<u8>) -> (builder: FeedBuilder)
        ensures
            builder.public_key == self.public_key,
            builder.secret_key == Some(secret_key),
    {
        FeedBuilder { public_key: self.public_key, secret_key: Some(secret_key) }
    }

    /// Starts reconstruction. The verifying key is persisted first, whatever
    /// follows.
    pub fn build(self) -> (start: (Construction, Request))
        ensures
            start.0.public_key() == self.public_key,
            start.0.stage() == (Stage::PublicKey { secret_key: self.secret_key }),
            start.1 == Request::WritePublicKey(self.public_key),
    {
        let request = Request::WritePublicKey(self.public_key);
        (
            Construction {
                public_key: self.public_key,
                stage: Stage::PublicKey { secret_key: self.secret_key },
            },
            request,
        )
    }
}

impl Construction {
    #[verifier::type_invariant]
    spec fn inv(self) -> bool {
        match self.stage {
            Stage::Roots { secret_key, bitfield, tree, length, slots, next } => {
                &&& tree_bytes(tree) == bitfield@
                &&& length == committed_blocks(bitfield@)
                &&& is_full_roots(slots.expected(), 0, length as nat)
                &&& next < slots.expected().len()
            },
            _ => true,
        }
    }

    /// The verifying key of the feed under reconstruction.
    pub closed spec fn public_key(self) -> [u8; 32] {
        self.public_key
    }

    /// How far reconstruction has come.
    pub closed spec fn stage(self) -> Stage {
        self.stage
    }

    /// Takes the reply to the pending request and decides what follows.
    pub fn advance(self, reply: Reply) -> (p: Progress)
        ensures
            advances(self.public_key(), self.stage(), reply, p),
            p matches Progress::Ready(feed) ==> feed@.consistent(),
    {
        proof {
            use_type_invariant(&self);
        }
        let Construction { public_key, stage } = self;
        match stage {
            Stage::PublicKey { secret_key } => match reply {
                Reply::Done => match secret_key {
                    None => Progress::Next(
                        Construction { public_key, stage: Stage::Bitfield { secret_key: None } },
                        Request::ReadBitfield,
                    ),
                    Some(raw) => match accept_secret_key(&raw) {
                        None => Progress::Failed(FeedError::InvalidKey),
                        Some(accepted) => Progress::Next(
                            Construction {
                                public_key,
                                stage: Stage::SecretKey { secret_key: accepted },
                            },
                            Request::WriteSecretKey(accepted),
                        ),
                    },
                },
                Reply::Failed => Progress::Failed(FeedError::Storage(Stream::PublicKey)),
                _ => Progress::Failed(FeedError::UnexpectedReply),
            },
            Stage::SecretKey { secret_key } => match reply {
                Reply::Done => Progress::Next(
                    Construction {
                        public_key,
                        stage: Stage::Bitfield { secret_key: Some(secret_key) },
                    },
                    Request::ReadBitfield,
                ),
                Reply::Failed => Progress::Failed(FeedError::Storage(Stream::SecretKey)),
                _ => Progress::Failed(FeedError::UnexpectedReply),
            },
            Stage::Bitfield { secret_key } => match reply {
                Reply::Bitfield(bytes) => Self::load(public_key, secret_key, bytes),
                Reply::Absent => Self::load(public_key, secret_key, Vec::new()),
                Reply::Failed => Progress::Failed(FeedError::Storage(Stream::Bitfield)),
                _ => Progress::Failed(FeedError::UnexpectedReply),
            },
            Stage::Roots { secret_key, bitfield, tree, length, slots, next } => match reply {
                Reply::Node(node) => match slots.place(next, node) {
                    Err(e) => Progress::Failed(e),
                    Ok(slots) => Self::proceed(
                        public_key,
                        secret_key,
                        bitfield,
                        tree,
                        length,
                        slots,
                        next,
                    ),
                },
                Reply::Absent => Self::proceed(
                    public_key,
                    secret_key,
                    bitfield,
                    tree,
                    length,
                    slots,
                    next,
                ),
                Reply::Failed => {
                    let index = slots.expected_at(next);
                    Progress::Failed(FeedError::Storage(Stream::Node { index }))
                },
                _ => Progress::Failed(FeedError::UnexpectedReply),
            },
        }
    }

    /// Derives the tree index, the block count and the expected roots from
    /// the loaded bitfield.
    fn load(public_key: [u8; 32], secret_key: Option<[u8; 32]>, bytes: Vec<u8>) -> (p: Progress)
        ensures
            after_bitfield(public_key, secret_key, bytes@, p),
            p matches Progress::Ready(feed) ==> feed@.consistent(),
    {
        let (tree, length) = match load_tree(&bytes) {
            None => {
                return Progress::Failed(FeedError::OutOfRange(Limit::BitfieldSize));
            },
            Some(loaded) => loaded,
        };
        let expected = match full_roots(length) {
            None => {
                return Progress::Failed(FeedError::OutOfRange(Limit::BlockCount));
            },
            Some(expected) => expected,
        };
        if expected.len() == 0 {
            let roots: Vec<Node> = Vec::new();
            assert(crate::roots::indices(roots@) =~= expected@);
            Progress::Ready(Feed::assemble(roots, 0, length, bytes, tree, public_key, secret_key))
        } else {
            let first = expected[0];
            let slots = RootSlots::new(expected);
            Progress::Next(
                Construction {
                    public_key,
                    stage: Stage::Roots { secret_key, bitfield: bytes, tree, length, slots, next: 0 },
                },
                Request::GetNode(first),
            )
        }
    }

    /// Asks for the next root or, after the last fetch, puts the feed
    /// together from the slots.
    fn proceed(
        public_key: [u8; 32],
        secret_key: Option<[u8; 32]>,
        bitfield: Vec<u8>,
        tree: tree_index::TreeIndex,
        length: u64,
        slots: RootSlots,
        next: usize,
    ) -> (p: Progress)
        requires
            tree_bytes(tree) == bitfield@,
            length == committed_blocks(bitfield@),
            is_full_roots(slots.expected(), 0, length as nat),
            next < slots.expected().len(),
        ensures
            after_fetch(
                public_key,
                secret_key,
                bitfield,
                tree,
                length,
                slots.expected(),
                slots.slots(),
                next,
                p,
            ),
            p matches Progress::Ready(feed) ==> feed@.consistent(),
    {
        let count = slots.len();
        if next + 1 < count {
            let request = Request::GetNode(slots.expected_at(next + 1));
            Progress::Next(
                Construction {
                    public_key,
                    stage: Stage::Roots { secret_key, bitfield, tree, length, slots, next: next + 1 },
                },
                request,
            )
        } else {
            let ghost filled = slots.slots();
            proof {
                if !all_filled(filled) {
                    lemma_first_empty_exists(filled);
                }
            }
            match slots.finish() {
                Err(e) => Progress::Failed(e),
                Ok(nodes) => {
                    assert(nodes@ =~= nodes_of(filled));
                    match byte_length(&nodes) {
                        None => Progress::Failed(FeedError::OutOfRange(Limit::ByteLength)),
                        Some(total) => Progress::Ready(
                            Feed::assemble(
                                nodes,
                                total,
                                length,
                                bitfield,
                                tree,
                                public_key,
                                secret_key,
                            ),
                        ),
                    }
                },
            }
        }
    }
}

} // verus!

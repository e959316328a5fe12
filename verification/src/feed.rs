//! The feed: the state that reconstruction hands over once it is complete.

use vstd::prelude::*;
use crate::flat::is_full_roots;
use crate::roots::indices;
use crate::roots::total_length;
use crate::roots::Node;
use crate::tree::committed_blocks;
use crate::tree::tree_bytes;

verus! {

/// A remote party that a feed exchanges data with.
#[derive(Debug, Clone, Copy, PartialEq, Eq)]
pub struct Peer {}

/// What a feed holds, as plain values.
pub struct FeedView {
    /// The root nodes, by ascending flat index.
    pub roots: Seq<Node>,
    /// The number of bytes in all committed blocks.
    pub byte_length: u64,
    /// The number of committed blocks.
    pub length: u64,
    /// The persisted bitfield.
    pub bitfield: Seq<u8>,
    /// The bytes of the bitfield inside the tree index.
    pub tree: Seq<u8>,
    /// The verifying key.
    pub public_key: Seq<u8>,
    /// The signing key, where the feed is writable.
    pub secret_key: Option<Seq<u8>>,
    /// The peers.
    pub peers: Seq<Peer>,
}

impl FeedView {
    /// What holds of every feed: the tree index is the one of the bitfield,
    /// the length is the block count that the tree index gives, the roots are
    /// the full roots of that many blocks, and the byte length is the sum of
    /// the roots' byte lengths.
    pub open spec fn consistent(self) -> bool {
        &&& self.tree == self.bitfield
        &&& self.length == committed_blocks(self.bitfield)
        &&& is_full_roots(indices(self.roots), 0, self.length as nat)
        &&& self.byte_length == total_length(self.roots)
    }
}

/// An authenticated append-only log, ready for use.
#[derive(Debug)]
pub struct Feed {
    roots: Vec<Node>,
    byte_length: u64,
    length: u64,
    bitfield: Vec<u8>,
    tree: tree_index::TreeIndex,
    public_key: [u8; 32],
    secret_key: Option<[u8; 32]>,
    peers: Vec<Peer>,
}

impl View for Feed {
    type V = FeedView;

    closed spec fn view(&self) -> FeedView {
        FeedView {
            roots: self.roots@,
            byte_length: self.byte_length,
            length: self.length,
            bitfield: self.bitfield@,
            tree: tree_bytes(self.tree),
            public_key: self.public_key@,
            secret_key: match self.secret_key {
                Some(key) => Some(key@),
                None => None,
            },
            peers: self.peers@,
        }
    }
}

impl Feed {
    #[verifier::type_invariant]
    spec fn inv(self) -> bool {
        self@.consistent()
    }

    /// Puts a feed together from its parts, with no peers.
    pub(crate) fn assemble(
        roots: Vec<Node>,
        byte_length: u64,
        length: u64,
        bitfield: Vec<u8>,
        tree: tree_index::TreeIndex,
        public_key: [u8; 32],
        secret_key: Option<[u8; 32]>,
    ) -> (feed: Feed)
        requires
            tree_bytes(tree) == bitfield@,
            length == committed_blocks(bitfield@),
            is_full_roots(indices(roots@), 0, length as nat),
            byte_length == total_length(roots@),
        ensures
            feed@ == (FeedView {
                roots: roots@,
                byte_length,
                length,
                bitfield: bitfield@,
                tree: bitfield@,
                public_key: public_key@,
                secret_key: match secret_key {
                    Some(key) => Some(key@),
                    None => None,
                },
                peers: Seq::<Peer>::empty(),
            }),
            feed@.consistent(),
    {
        Feed {
            roots,
            byte_length,
            length,
            bitfield,
            tree,
            public_key,
            secret_key,
            peers: Vec::new(),
        }
    }

    /// The root nodes, by ascending flat index.
    pub fn roots(&self) -> (roots: &Vec<Node>)
        ensures
            roots@ == self@.roots,
            is_full_roots(indices(roots@), 0, self@.length as nat),
    {
        proof {
            use_type_invariant(self);
        }
        &self.roots
    }

    /// The number of bytes in all committed blocks: the sum of the roots'
    /// byte lengths.
    pub fn byte_length(&self) -> (n: u64)
        ensures
            n == self@.byte_length,
            n == total_length(self@.roots),
    {
        proof {
            use_type_invariant(self);
        }
        self.byte_length
    }

    /// The number of committed blocks, as the tree index gives it.
    pub fn len(&self) -> (n: u64)
        ensures
            n == self@.length,
            n == committed_blocks(self@.bitfield),
    {
        proof {
            use_type_invariant(self);
        }
        self.length
    }

    /// Whether the feed has no committed block.
    pub fn is_empty(&self) -> (empty: bool)
        ensures
            empty == (self@.length == 0),
    {
        self.length == 0
    }

    /// The persisted bitfield.
    pub fn bitfield(&self) -> (bytes: &Vec<u8>)
        ensures
            bytes@ == self@.bitfield,
    {
        &self.bitfield
    }

    /// The tree index, which holds the bytes of the bitfield.
    pub fn tree(&self) -> (tree: &tree_index::TreeIndex)
        ensures
            tree_bytes(*tree) == self@.tree,
            tree_bytes(*tree) == self@.bitfield,
    {
        proof {
            use_type_invariant(self);
        }
        &self.tree
    }

    /// The verifying key.
    pub fn public_key(&self) -> (key: &[u8; 32])
        ensures
            key@ == self@.public_key,
    {
        &self.public_key
    }

    /// The signing key, where the feed is writable.
    pub fn secret_key(&self) -> (key: &Option<[u8; 32]>)
        ensures
            match *key {
                Some(k) => self@.secret_key == Some(k@),
                None => self@.secret_key is None,
            },
    {
        &self.secret_key
    }

    /// The peers.
    pub fn peers(&self) -> (peers: &Vec<Peer>)
        ensures
            peers@ == self@.peers,
    {
        &self.peers
    }
}

} // verus!

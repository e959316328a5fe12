//! Errors of the storage backend and of feed reconstruction.

use vstd::prelude::*;

verus! {

/// What a storage operation can fail with.
#[derive(Debug, Clone, Copy, PartialEq, Eq)]
pub enum StorageError {
    /// A read of `[offset, end)` reaches beyond the `length` of the object.
    Bounds { length: u64, offset: u64, end: u128 },
    /// The operation is not offered by this backend.
    NotImplemented,
    /// The range `[offset, offset + count)` does not fit into `u64`.
    Range { offset: u64, count: u64 },
    /// The object handed back `got` bytes where `wanted` were asked for.
    ShortRead { wanted: u64, got: u64 },
    /// The storage engine refused to create the object because it exists
    /// under another session.
    AccessConflict,
    /// The storage engine or the object failed during `operation`.
    Engine { operation: Operation },
    /// The driver reported something that the pending operation cannot end
    /// with.
    UnexpectedReply,
}

/// The steps that involve the storage engine or the object behind a backend.
#[derive(Debug, Clone, Copy, PartialEq, Eq)]
pub enum Operation {
    Create,
    Open,
    Sync,
    Metadata,
}

/// What makes a persisted root set unusable.
#[derive(Debug, Clone, Copy, PartialEq, Eq)]
pub enum Corruption {
    /// Storage handed back the node `found` where the root `expected` was
    /// asked for.
    WrongNode { expected: u64, found: u64 },
    /// No node was found for the expected root `index`.
    MissingRoot { index: u64 },
}

/// The persisted streams that reconstruction writes and reads.
#[derive(Debug, Clone, Copy, PartialEq, Eq)]
pub enum Stream {
    PublicKey,
    SecretKey,
    Bitfield,
    Node { index: u64 },
}

/// A size that leaves the range in which the feed can be represented.
#[derive(Debug, Clone, Copy, PartialEq, Eq)]
pub enum Limit {
    /// The persisted bitfield has more bytes than the tree index can take.
    BitfieldSize,
    /// The flat tree of the committed blocks has indices beyond `u64`.
    BlockCount,
    /// The byte lengths of the roots add up to more than `u64` holds.
    ByteLength,
}

/// Why a feed could not be reconstructed.
#[derive(Debug, Clone, Copy, PartialEq, Eq)]
pub enum FeedError {
    /// The signing-key bytes are no signing key.
    InvalidKey,
    /// The persisted roots do not match the root set of the committed blocks.
    CorruptIndex(Corruption),
    /// Storage failed while the given stream was written or read.
    Storage(Stream),
    /// A persisted size is beyond what the feed can represent.
    OutOfRange(Limit),
    /// The driver reported something that the pending request cannot end with.
    UnexpectedReply,
}

} // verus!

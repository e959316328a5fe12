//! The primitives of a storage object and what they do to its bytes.
//!
//! A storage object is a file-like container: it has contents, and a cursor
//! at which the next read or write takes place. The backend never touches
//! the object. It plans the primitives to carry out, as values of `FileOp`,
//! and a driver applies them in order. `ObjectState` and `run` say what a
//! plan does to an object that behaves like a file.

use vstd::prelude::*;

verus! {

/// One primitive of a storage object.
#[derive(Debug, Clone, PartialEq, Eq)]
pub enum FileOp {
    /// Move the cursor to this offset from the start.
    Seek(u64),
    /// Write all of these bytes at the cursor.
    WriteAll(Vec<u8>),
    /// Read this many bytes at the cursor.
    Read(u64),
    /// Set the length of the contents.
    SetLen(u64),
    /// Flush contents and metadata to the medium.
    SyncAll,
}

/// A storage object: its contents, its cursor, and the bytes that its reads
/// have handed back so far.
pub struct ObjectState {
    pub content: Seq<u8>,
    pub cursor: nat,
    pub output: Seq<u8>,
}

/// `content` after `data` is written at offset `at`: the bytes under the
/// write are replaced, the contents grow where the write reaches beyond
/// their end, and a gap before `at` reads as zero.
pub open spec fn overwritten(content: Seq<u8>, at: nat, data: Seq<u8>) -> Seq<u8> {
    Seq::new(
        if content.len() >= at + data.len() {
            content.len()
        } else {
            at + data.len()
        },
        |i: int|
            if at <= i < at + data.len() {
                data[i - at]
            } else if i < content.len() {
                content[i]
            } else {
                0u8
            },
    )
}

/// `content` cut or extended with zero bytes to `length` bytes.
pub open spec fn resized(content: Seq<u8>, length: nat) -> Seq<u8> {
    Seq::new(
        length,
        |i: int|
            if i < content.len() {
                content[i]
            } else {
                0u8
            },
    )
}

/// The bytes that a read of `count` bytes at offset `at` hands back: those
/// of the range, as far as the contents reach.
pub open spec fn read_at(content: Seq<u8>, at: nat, count: nat) -> Seq<u8> {
    if at >= content.len() {
        Seq::empty()
    } else if at + count >= content.len() {
        content.subrange(at as int, content.len() as int)
    } else {
        content.subrange(at as int, (at + count) as int)
    }
}

/// The object after one primitive.
pub open spec fn apply(op: FileOp, state: ObjectState) -> ObjectState {
    match op {
        FileOp::Seek(offset) => ObjectState { cursor: offset as nat, ..state },
        FileOp::WriteAll(data) => ObjectState {
            content: overwritten(state.content, state.cursor, data@),
            cursor: state.cursor + data@.len(),
            ..state
        },
        FileOp::Read(count) => {
            let bytes = read_at(state.content, state.cursor, count as nat);
            ObjectState {
                cursor: state.cursor + bytes.len(),
                output: state.output + bytes,
                ..state
            }
        },
        FileOp::SetLen(length) => ObjectState {
            content: resized(state.content, length as nat),
            ..state
        },
        FileOp::SyncAll => state,
    }
}

/// The object after the primitives of `plan`, in order.
pub open spec fn run(plan: Seq<FileOp>, state: ObjectState) -> ObjectState
    decreases plan.len(),
{
    if plan.len() == 0 {
        state
    } else {
        run(plan.drop_first(), apply(plan[0], state))
    }
}

/// A write leaves the contents as long as the longer of the old contents and
/// the end of the write.
pub proof fn lemma_overwritten_len(content: Seq<u8>, at: nat, data: Seq<u8>)
    ensures
        overwritten(content, at, data).len() == if content.len() >= at + data.len() {
            content.len()
        } else {
            at + data.len()
        },
{
}

/// Reading back the range of a write gives the bytes written.
pub proof fn lemma_read_back(content: Seq<u8>, at: nat, data: Seq<u8>)
    ensures
        read_at(overwritten(content, at, data), at, data.len()) == data,
{
    let after = overwritten(content, at, data);
    assert(read_at(after, at, data.len()) =~= data);
}

/// A write changes no byte outside its range: what was there stays, and
/// what the write skipped reads as zero.
pub proof fn lemma_write_frame(content: Seq<u8>, at: nat, data: Seq<u8>, i: int)
    requires
        0 <= i < overwritten(content, at, data).len(),
        !(at <= i < at + data.len()),
    ensures
        overwritten(content, at, data)[i] == if i < content.len() {
            content[i]
        } else {
            0u8
        },
{
}

/// A read within the contents hands back exactly the bytes of its range.
pub proof fn lemma_read_within(content: Seq<u8>, at: nat, count: nat)
    requires
        at + count <= content.len(),
    ensures
        read_at(content, at, count) == content.subrange(at as int, (at + count) as int),
{
    if at >= content.len() {
        assert(content.subrange(at as int, (at + count) as int) =~= Seq::<u8>::empty());
    }
}

/// Setting the length gives contents of exactly that length and keeps the
/// bytes that were there before.
pub proof fn lemma_resized(content: Seq<u8>, length: nat)
    ensures
        resized(content, length).len() == length,
        forall|i: int|
            0 <= i < length && i < content.len() ==> resized(content, length)[i] == content[i],
        forall|i: int| content.len() <= i < length ==> resized(content, length)[i] == 0u8,
{
}

} // verus!

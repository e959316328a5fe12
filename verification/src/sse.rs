//! The bookkeeping of the secure storage backend: the length of its object,
//! the bounds of reads, and the plans by which the object is written, read,
//! truncated and flushed.

use vstd::prelude::*;
use vstd::slice::slice_to_vec;
use crate::error::StorageError;
use crate::object::apply;
use crate::object::overwritten;
use crate::object::resized;
use crate::object::run;
use crate::object::FileOp;
use crate::object::ObjectState;

verus! {

/// Random-access storage in an object of the secure storage engine. It
/// tracks the length of the object and whether every change is flushed at
/// once.
#[derive(Debug, Clone, Copy, PartialEq, Eq)]
pub struct RandomAccessSse {
    /// The length of the object, as the backend tracks it.
    pub length: u64,
    /// Whether every write and truncation is flushed at once.
    pub auto_sync: bool,
}

/// Whether `plan` writes `data` at `offset`: seek, write, and a flush where
/// `sync` asks for one.
pub open spec fn is_write_plan(plan: Seq<FileOp>, offset: u64, data: Seq<u8>, sync: bool) -> bool {
    &&& plan.len() == if sync { 3nat } else { 2nat }
    &&& plan[0] == FileOp::Seek(offset)
    &&& plan[1] matches FileOp::WriteAll(bytes) && bytes@ == data
    &&& sync ==> plan[2] == FileOp::SyncAll
}

/// The plan that reads `length` bytes at `offset`.
pub open spec fn read_plan(offset: u64, length: u64) -> Seq<FileOp> {
    seq![FileOp::Seek(offset), FileOp::Read(length)]
}

/// The plan that sets the length of the object, with a flush where `sync`
/// asks for one.
pub open spec fn truncate_plan(length: u64, sync: bool) -> Seq<FileOp> {
    if sync {
        seq![FileOp::SetLen(length), FileOp::SyncAll]
    } else {
        seq![FileOp::SetLen(length)]
    }
}

/// The plan of an explicit flush: nothing where every change was flushed
/// already.
pub open spec fn sync_plan(auto_sync: bool) -> Seq<FileOp> {
    if auto_sync {
        Seq::<FileOp>::empty()
    } else {
        seq![FileOp::SyncAll]
    }
}

impl RandomAccessSse {
    /// A backend over an object of `length` bytes.
    pub fn new(length: u64, auto_sync: bool) -> (backend: RandomAccessSse)
        ensures
            backend.length == length,
            backend.auto_sync == auto_sync,
    {
        RandomAccessSse { length, auto_sync }
    }

    /// Plans the write of `data` at `offset`, and gives the offset at which
    /// the write ends. Nothing is planned for a write that would end beyond
    /// `u64`. The tracked length changes once `wrote` is told that the plan
    /// went through.
    pub fn write(&self, offset: u64, data: &[u8]) -> (r: Result<(Vec<FileOp>, u64), StorageError>)
        ensures
            offset + data@.len() > u64::MAX ==> r == Err::<(Vec<FileOp>, u64), StorageError>(
                StorageError::Range { offset, count: data@.len() as u64 },
            ),
            offset + data@.len() <= u64::MAX ==> (r matches Ok((plan, end)) && {
                &&& is_write_plan(plan@, offset, data@, self.auto_sync)
                &&& end == offset + data@.len()
            }),
    {
        let count = data.len() as u64;
        match offset.checked_add(count) {
            None => Err(StorageError::Range { offset, count }),
            Some(end) => {
                let mut plan: Vec<FileOp> = Vec::new();
                plan.push(FileOp::Seek(offset));
                plan.push(FileOp::WriteAll(slice_to_vec(data)));
                if self.auto_sync {
                    plan.push(FileOp::SyncAll);
                }
                Ok((plan, end))
            },
        }
    }

    /// Records that a write which ends at offset `end` went through: the
    /// length grows to `end` where it was shorter.
    pub fn wrote(&mut self, end: u64)
        ensures
            final(self).length == if end > old(self).length {
                end
            } else {
                old(self).length
            },
            final(self).auto_sync == old(self).auto_sync,
    {
        if end > self.length {
            self.length = end;
        }
    }

    /// Plans the read of `length` bytes at `offset`. A range that reaches
    /// beyond the tracked length is refused and nothing is planned.
    pub fn read(&self, offset: u64, length: u64) -> (r: Result<Vec<FileOp>, StorageError>)
        ensures
            offset + length > self.length ==> r == Err::<Vec<FileOp>, StorageError>(
                StorageError::Bounds {
                    length: self.length,
                    offset,
                    end: (offset + length) as u128,
                },
            ),
            offset + length <= self.length ==> (r matches Ok(plan) && plan@ == read_plan(
                offset,
                length,
            )),
    {
        let end: u128 = offset as u128 + length as u128;
        if end > self.length as u128 {
            return Err(StorageError::Bounds { length: self.length, offset, end });
        }
        let mut plan: Vec<FileOp> = Vec::new();
        plan.push(FileOp::Seek(offset));
        plan.push(FileOp::Read(length));
        assert(plan@ =~= read_plan(offset, length));
        Ok(plan)
    }

    /// Takes the bytes that the object handed back for a read of `length`
    /// bytes. They are the result only if they are exactly that many.
    pub fn read_done(&self, length: u64, bytes: Vec<u8>) -> (r: Result<Vec<u8>, StorageError>)
        ensures
            bytes@.len() == length ==> r == Ok::<Vec<u8>, StorageError>(bytes),
            bytes@.len() != length ==> r == Err::<Vec<u8>, StorageError>(
                StorageError::ShortRead { wanted: length, got: bytes@.len() as u64 },
            ),
    {
        let got = bytes.len() as u64;
        if got == length {
            Ok(bytes)
        } else {
            Err(StorageError::ShortRead { wanted: length, got })
        }
    }

    /// Streaming a read into a sink is not offered.
    pub fn read_to_writer(&self, offset: u64, length: u64) -> (r: Result<Vec<FileOp>, StorageError>)
        ensures
            r == Err::<Vec<FileOp>, StorageError>(StorageError::NotImplemented),
    {
        Err(StorageError::NotImplemented)
    }

    /// Deleting a range is not offered.
    pub fn del(&self, offset: u64, length: u64) -> (r: Result<Vec<FileOp>, StorageError>)
        ensures
            r == Err::<Vec<FileOp>, StorageError>(StorageError::NotImplemented),
    {
        Err(StorageError::NotImplemented)
    }

    /// Sets the tracked length to `length` and plans the same for the
    /// object.
    pub fn truncate(&mut self, length: u64) -> (plan: Vec<FileOp>)
        ensures
            final(self).length == length,
            final(self).auto_sync == old(self).auto_sync,
            plan@ == truncate_plan(length, old(self).auto_sync),
    {
        self.length = length;
        let mut plan: Vec<FileOp> = Vec::new();
        plan.push(FileOp::SetLen(length));
        if self.auto_sync {
            plan.push(FileOp::SyncAll);
        }
        assert(plan@ =~= truncate_plan(length, self.auto_sync));
        plan
    }

    /// The tracked length.
    pub fn len(&self) -> (length: u64)
        ensures
            length == self.length,
    {
        self.length
    }

    /// Whether the tracked length is zero.
    pub fn is_empty(&self) -> (empty: bool)
        ensures
            empty == (self.length == 0),
    {
        self.length == 0
    }

    /// Whether every write and truncation is flushed at once.
    pub fn auto_sync(&self) -> (auto_sync: bool)
        ensures
            auto_sync == self.auto_sync,
    {
        self.auto_sync
    }

    /// Plans an explicit flush, which is needed only where changes are not
    /// flushed at once.
    pub fn sync_all(&self) -> (plan: Vec<FileOp>)
        ensures
            plan@ == sync_plan(self.auto_sync),
    {
        let mut plan: Vec<FileOp> = Vec::new();
        if !self.auto_sync {
            plan.push(FileOp::SyncAll);
        }
        assert(plan@ =~= sync_plan(self.auto_sync));
        plan
    }

    /// Plans the flush that is owed when the backend is given up, whatever
    /// the policy for writes.
    pub fn release(&self) -> (plan: Vec<FileOp>)
        ensures
            plan@ == seq![FileOp::SyncAll],
    {
        let mut plan: Vec<FileOp> = Vec::new();
        plan.push(FileOp::SyncAll);
        assert(plan@ =~= seq![FileOp::SyncAll]);
        plan
    }
}

/// A write plan leaves the object with `data` at `offset` and hands back no
/// byte.
pub proof fn lemma_write_plan_runs(
    plan: Seq<FileOp>,
    offset: u64,
    data: Seq<u8>,
    sync: bool,
    state: ObjectState,
)
    requires
        is_write_plan(plan, offset, data, sync),
    ensures
        run(plan, state).content == overwritten(state.content, offset as nat, data),
        run(plan, state).output == state.output,
{
    reveal_with_fuel(run, 4);
    let rest = plan.drop_first();
    let after_seek = apply(plan[0], state);
    assert(rest[0] == plan[1]);
    let after_write = apply(rest[0], after_seek);
    let tail = rest.drop_first();
    if sync {
        assert(tail[0] == plan[2]);
        assert(tail.drop_first().len() == 0);
    } else {
        assert(tail.len() == 0);
    }
}

/// A read plan whose range lies within the object hands back exactly the
/// bytes of the range and leaves the contents alone.
pub proof fn lemma_read_plan_runs(offset: u64, length: u64, state: ObjectState)
    requires
        offset + length <= state.content.len(),
    ensures
        run(read_plan(offset, length), state).output == state.output + state.content.subrange(
            offset as int,
            offset + length,
        ),
        run(read_plan(offset, length), state).content == state.content,
{
    reveal_with_fuel(run, 3);
    let plan = read_plan(offset, length);
    let rest = plan.drop_first();
    assert(rest[0] == plan[1]);
    assert(rest.drop_first().len() == 0);
    crate::object::lemma_read_within(state.content, offset as nat, length as nat);
}

/// A truncation plan leaves the object with exactly the planned length.
pub proof fn lemma_truncate_plan_runs(length: u64, sync: bool, state: ObjectState)
    ensures
        run(truncate_plan(length, sync), state).content == resized(state.content, length as nat),
        run(truncate_plan(length, sync), state).content.len() == length,
        run(truncate_plan(length, sync), state).output == state.output,
{
    reveal_with_fuel(run, 3);
    let plan = truncate_plan(length, sync);
    let rest = plan.drop_first();
    if sync {
        assert(rest[0] == plan[1]);
        assert(rest.drop_first().len() == 0);
    } else {
        assert(rest.len() == 0);
    }
}

/// Round trip: after `data` is written at `offset`, a read of that range
/// hands back `data`, whatever the object held and wherever its cursor was.
pub proof fn lemma_write_then_read(
    plan: Seq<FileOp>,
    offset: u64,
    data: Seq<u8>,
    sync: bool,
    state: ObjectState,
)
    requires
        is_write_plan(plan, offset, data, sync),
        offset + data.len() <= u64::MAX,
    ensures
        run(read_plan(offset, data.len() as u64), run(plan, state)).output == state.output + data,
{
    lemma_write_plan_runs(plan, offset, data, sync, state);
    let after = run(plan, state);
    lemma_read_plan_runs(offset, data.len() as u64, after);
    assert(after.content.subrange(offset as int, offset + data.len()) =~= data);
}

/// A read within the object, after a write, hands back for each offset the
/// byte written there last: the byte of `data` under the write, and what the
/// object held before elsewhere.
pub proof fn lemma_read_after_write(
    plan: Seq<FileOp>,
    offset: u64,
    data: Seq<u8>,
    sync: bool,
    state: ObjectState,
    from: u64,
    length: u64,
)
    requires
        is_write_plan(plan, offset, data, sync),
        from + length <= run(plan, state).content.len(),
    ensures
        run(read_plan(from, length), run(plan, state)).output.len() == state.output.len() + length,
        forall|i: int|
            0 <= i < length ==> #[trigger] run(read_plan(from, length), run(plan, state)).output[state.output.len()
                + i] == if offset <= from + i < offset + data.len() {
                data[from + i - offset]
            } else if from + i < state.content.len() {
                state.content[from + i]
            } else {
                0u8
            },
{
    lemma_write_plan_runs(plan, offset, data, sync, state);
    lemma_read_plan_runs(from, length, run(plan, state));
}

/// The tracked length stays the length of the object: where it was before
/// a write, it is after the write's plan has run and `wrote` was told.
pub proof fn lemma_write_tracks_length(
    before: RandomAccessSse,
    after: RandomAccessSse,
    plan: Seq<FileOp>,
    offset: u64,
    data: Seq<u8>,
    state: ObjectState,
)
    requires
        before.length == state.content.len(),
        is_write_plan(plan, offset, data, before.auto_sync),
        offset + data.len() <= u64::MAX,
        after.length == if offset + data.len() > before.length {
            (offset + data.len()) as u64
        } else {
            before.length
        },
    ensures
        after.length == run(plan, state).content.len(),
{
    lemma_write_plan_runs(plan, offset, data, before.auto_sync, state);
}

} // verus!

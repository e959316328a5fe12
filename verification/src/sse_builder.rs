//! Configuration of the secure storage backend, and the resolution of its
//! object: create it, or open it where it exists already.

use vstd::prelude::*;
use crate::error::Operation;
use crate::error::StorageError;
use crate::sse::RandomAccessSse;

verus! {

/// The identity of an object within a storage of the secure storage engine.
#[derive(Debug, Clone, PartialEq, Eq)]
pub struct ObjectId {
    pub bytes: Vec<u8>,
}

/// The kinds of persistent object.
#[derive(Debug, Clone, Copy, PartialEq, Eq)]
pub enum PersistentObjectType {
    /// Plain data.
    Data,
    /// A pair of cryptographic keys.
    CryptoKeypair,
}

/// The configuration of a backend: which object it lives in, from which
/// object a new one takes its attributes, and whether every change is
/// flushed at once. `A` is the handle by which the driver knows the object
/// that lends its attributes; nothing is read from it here.
#[derive(Debug, Clone, PartialEq, Eq)]
pub struct SseBuilder<A> {
    pub obj_id: ObjectId,
    pub obj_type: PersistentObjectType,
    pub storage_id: u32,
    pub flags: u32,
    pub attributes: Option<A>,
    pub auto_sync: bool,
}

/// What the driver has to ask of the storage engine or of the object next.
#[derive(Debug, Clone, Copy, PartialEq, Eq)]
pub enum EngineRequest {
    /// Create the object of the configuration under the current session.
    Create,
    /// Open the object of the configuration under the current session.
    Open,
    /// Flush the object.
    Sync,
    /// Read the length of the object from its metadata.
    Metadata,
}

/// What the driver reports once it has carried out a request.
#[derive(Debug, Clone, Copy, PartialEq, Eq)]
pub enum EngineReply {
    /// The engine handed out the object.
    Object,
    /// The engine refused because the object exists under another session.
    AccessConflict,
    /// The engine or the object failed in any other way.
    Failed,
    /// The flush went through.
    Done,
    /// The length of the object.
    Length(u64),
}

/// The request that a resolution waits on.
#[derive(Debug, Clone, Copy, PartialEq, Eq)]
pub enum Pending {
    Creating,
    Opening,
    Syncing,
    Measuring,
}

/// The resolution of a backend's object, under way.
#[derive(Debug, Clone, PartialEq, Eq)]
pub struct Resolution<A> {
    pub config: SseBuilder<A>,
    pub pending: Pending,
}

/// What a reply leads to.
#[derive(Debug, Clone, PartialEq, Eq)]
pub enum Resolved<A> {
    /// Resolution goes on with another request.
    Next(Resolution<A>, EngineRequest),
    /// The backend is ready.
    Ready(RandomAccessSse),
    /// Resolution has failed.
    Failed(StorageError),
}

/// Whether the storage lock is to be held while `pending` is awaited: from
/// before creation is tried until the object is created or opened, so that
/// creation and the opening it may fall back on are one critical section.
/// Flushing and measuring the object need no lock.
pub open spec fn holds_lock(pending: Pending) -> bool {
    pending is Creating || pending is Opening
}

/// What `reply` leads to while `pending` is awaited. Only a conflict on
/// creation is recovered from:
/// the object is then opened. The length of the backend is the one that the
/// object reports after it was flushed.
pub open spec fn resolves<A>(
    config: SseBuilder<A>,
    pending: Pending,
    reply: EngineReply,
) -> Resolved<A> {
    match pending {
        Pending::Creating => match reply {
            EngineReply::Object => Resolved::Next(
                Resolution { config, pending: Pending::Syncing },
                EngineRequest::Sync,
            ),
            EngineReply::AccessConflict => Resolved::Next(
                Resolution { config, pending: Pending::Opening },
                EngineRequest::Open,
            ),
            EngineReply::Failed => Resolved::Failed(
                StorageError::Engine { operation: Operation::Create },
            ),
            _ => Resolved::Failed(StorageError::UnexpectedReply),
        },
        Pending::Opening => match reply {
            EngineReply::Object => Resolved::Next(
                Resolution { config, pending: Pending::Syncing },
                EngineRequest::Sync,
            ),
            EngineReply::AccessConflict => Resolved::Failed(StorageError::AccessConflict),
            EngineReply::Failed => Resolved::Failed(
                StorageError::Engine { operation: Operation::Open },
            ),
            _ => Resolved::Failed(StorageError::UnexpectedReply),
        },
        Pending::Syncing => match reply {
            EngineReply::Done => Resolved::Next(
                Resolution { config, pending: Pending::Measuring },
                EngineRequest::Metadata,
            ),
            EngineReply::Failed => Resolved::Failed(
                StorageError::Engine { operation: Operation::Sync },
            ),
            _ => Resolved::Failed(StorageError::UnexpectedReply),
        },
        Pending::Measuring => match reply {
            EngineReply::Length(length) => Resolved::Ready(
                RandomAccessSse { length, auto_sync: config.auto_sync },
            ),
            EngineReply::Failed => Resolved::Failed(
                StorageError::Engine { operation: Operation::Metadata },
            ),
            _ => Resolved::Failed(StorageError::UnexpectedReply),
        },
    }
}

impl<A> SseBuilder<A> {
    /// The configuration of a backend in the object `obj_id`: a data object
    /// in storage 0, without flags or borrowed attributes, flushed after
    /// every change.
    pub fn new(obj_id: ObjectId) -> (builder: SseBuilder<A>)
        ensures
            builder == (SseBuilder::<A> {
                obj_id,
                obj_type: PersistentObjectType::Data,
                storage_id: 0,
                flags: 0,
                attributes: None,
                auto_sync: true,
            }),
    {
        SseBuilder {
            obj_id,
            obj_type: PersistentObjectType::Data,
            storage_id: 0,
            flags: 0,
            attributes: None,
            auto_sync: true,
        }
    }

    /// Sets the kind of the object.
    pub fn obj_type(self, obj_type: PersistentObjectType) -> (builder: SseBuilder<A>)
        ensures
            builder == (SseBuilder { obj_type, ..self }),
    {
        let mut builder = self;
        builder.obj_type = obj_type;
        builder
    }

    /// Sets the storage in which the object lives.
    pub fn storage_id(self, storage_id: u32) -> (builder: SseBuilder<A>)
        ensures
            builder == (SseBuilder { storage_id, ..self }),
    {
        let mut builder = self;
        builder.storage_id = storage_id;
        builder
    }

    /// Sets the flags with which the object is created and opened.
    pub fn flags(self, flags: u32) -> (builder: SseBuilder<A>)
        ensures
            builder == (SseBuilder { flags, ..self }),
    {
        let mut builder = self;
        builder.flags = flags;
        builder
    }

    /// Sets the object from which a new object takes its attributes.
    pub fn attributes(self, attributes: Option<A>) -> (builder: SseBuilder<A>)
        ensures
            builder == (SseBuilder { attributes, ..self }),
    {
        let mut builder = self;
        builder.attributes = attributes;
        builder
    }

    /// Sets whether every write and truncation is flushed at once.
    pub fn auto_sync(self, auto_sync: bool) -> (builder: SseBuilder<A>)
        ensures
            builder == (SseBuilder { auto_sync, ..self }),
    {
        let mut builder = self;
        builder.auto_sync = auto_sync;
        builder
    }

    /// Starts the resolution of the object: creation is tried first.
    pub fn build(self) -> (start: (Resolution<A>, EngineRequest))
        ensures
            start.0 == (Resolution { config: self, pending: Pending::Creating }),
            start.1 == EngineRequest::Create,
    {
        (Resolution { config: self, pending: Pending::Creating }, EngineRequest::Create)
    }
}

impl<A> Resolution<A> {
    /// Whether the driver must hold the storage lock while it carries out
    /// the pending request. The lock is taken before creation and given up
    /// only once the object is there or resolution has failed.
    pub fn locked(&self) -> (held: bool)
        ensures
            held == holds_lock(self.pending),
    {
        match self.pending {
            Pending::Creating => true,
            Pending::Opening => true,
            Pending::Syncing => false,
            Pending::Measuring => false,
        }
    }

    /// Takes the reply to the pending request and decides what follows.
    pub fn advance(self, reply: EngineReply) -> (r: Resolved<A>)
        ensures
            r == resolves(self.config, self.pending, reply),
    {
        let Resolution { config, pending } = self;
        match pending {
            Pending::Creating => match reply {
                EngineReply::Object => Resolved::Next(
                    Resolution { config, pending: Pending::Syncing },
                    EngineRequest::Sync,
                ),
                EngineReply::AccessConflict => Resolved::Next(
                    Resolution { config, pending: Pending::Opening },
                    EngineRequest::Open,
                ),
                EngineReply::Failed => Resolved::Failed(
                    StorageError::Engine { operation: Operation::Create },
                ),
                _ => Resolved::Failed(StorageError::UnexpectedReply),
            },
            Pending::Opening => match reply {
                EngineReply::Object => Resolved::Next(
                    Resolution { config, pending: Pending::Syncing },
                    EngineRequest::Sync,
                ),
                EngineReply::AccessConflict => Resolved::Failed(StorageError::AccessConflict),
                EngineReply::Failed => Resolved::Failed(
                    StorageError::Engine { operation: Operation::Open },
                ),
                _ => Resolved::Failed(StorageError::UnexpectedReply),
            },
            Pending::Syncing => match reply {
                EngineReply::Done => Resolved::Next(
                    Resolution { config, pending: Pending::Measuring },
                    EngineRequest::Metadata,
                ),
                EngineReply::Failed => Resolved::Failed(
                    StorageError::Engine { operation: Operation::Sync },
                ),
                _ => Resolved::Failed(StorageError::UnexpectedReply),
            },
            Pending::Measuring => match reply {
                EngineReply::Length(length) => Resolved::Ready(
                    RandomAccessSse::new(length, config.auto_sync),
                ),
                EngineReply::Failed => Resolved::Failed(
                    StorageError::Engine { operation: Operation::Metadata },
                ),
                _ => Resolved::Failed(StorageError::UnexpectedReply),
            },
        }
    }
}

impl RandomAccessSse {
    /// Starts the resolution of a backend in the object `obj_id` that is
    /// flushed after every change.
    pub fn open<A>(
        obj_id: ObjectId,
        obj_type: PersistentObjectType,
        storage_id: u32,
        flags: u32,
        attributes: Option<A>,
    ) -> (start: (Resolution<A>, EngineRequest))
        ensures
            start.0 == (Resolution {
                config: SseBuilder {
                    obj_id,
                    obj_type,
                    storage_id,
                    flags,
                    attributes,
                    auto_sync: true,
                },
                pending: Pending::Creating,
            }),
            start.1 == EngineRequest::Create,
    {
        Self::builder(obj_id).obj_type(obj_type).storage_id(storage_id).flags(flags).attributes(
            attributes,
        ).auto_sync(true).build()
    }

    /// The configuration of a backend in the object `obj_id`, with the
    /// defaults of `SseBuilder::new`.
    pub fn builder<A>(obj_id: ObjectId) -> (builder: SseBuilder<A>)
        ensures
            builder == (SseBuilder::<A> {
                obj_id,
                obj_type: PersistentObjectType::Data,
                storage_id: 0,
                flags: 0,
                attributes: None,
                auto_sync: true,
            }),
    {
        SseBuilder::new(obj_id)
    }
}

/// A conflict on creation is no failure: the object is opened instead,
/// under the lock that creation was tried under, and once it is flushed and
/// measured the backend has the length that the object reports.
pub proof fn lemma_conflict_resolves_by_open<A>(config: SseBuilder<A>, length: u64)
    ensures
        holds_lock(Pending::Creating) && holds_lock(Pending::Opening),
        resolves(config, Pending::Creating, EngineReply::AccessConflict) == Resolved::Next(
            Resolution { config, pending: Pending::Opening },
            EngineRequest::Open,
        ),
        resolves(config, Pending::Opening, EngineReply::Object) == Resolved::Next(
            Resolution { config, pending: Pending::Syncing },
            EngineRequest::Sync,
        ),
        resolves(config, Pending::Syncing, EngineReply::Done) == Resolved::Next(
            Resolution { config, pending: Pending::Measuring },
            EngineRequest::Metadata,
        ),
        resolves(config, Pending::Measuring, EngineReply::Length(length)) == Resolved::<
            A,
        >::Ready(RandomAccessSse { length, auto_sync: config.auto_sync }),
{
}

} // verus!

use feed_store::error::{Operation, StorageError};
use feed_store::sse::RandomAccessSse;
use feed_store::sse_builder::{
    EngineReply, EngineRequest, ObjectId, Pending, PersistentObjectType, Resolution, Resolved,
    SseBuilder,
};

fn id() -> ObjectId {
    ObjectId { bytes: vec![1, 2, 3] }
}

fn fresh() -> SseBuilder<u8> {
    SseBuilder::new(id())
}

/// Runs a resolution against the replies, and hands back the requests made
/// and how it ended.
fn resolve(
    builder: SseBuilder<u8>,
    replies: &[EngineReply],
) -> (Vec<EngineRequest>, Resolved<u8>) {
    let (mut resolution, mut request) = builder.build();
    let mut asked = vec![];
    let mut at = 0;
    loop {
        asked.push(request);
        match resolution.advance(replies[at]) {
            Resolved::Next(next, then) => {
                resolution = next;
                request = then;
                at += 1;
            }
            ended => return (asked, ended),
        }
    }
}

#[test]
fn builder_defaults() {
    let builder = fresh();
    assert_eq!(builder.obj_id, id());
    assert_eq!(builder.obj_type, PersistentObjectType::Data);
    assert_eq!(builder.storage_id, 0);
    assert_eq!(builder.flags, 0);
    assert_eq!(builder.attributes, None);
    assert!(builder.auto_sync);
    assert_eq!(RandomAccessSse::builder(id()), builder);
}

#[test]
fn builder_setters() {
    let builder = fresh()
        .obj_type(PersistentObjectType::CryptoKeypair)
        .storage_id(7)
        .flags(0x11)
        .attributes(Some(5))
        .auto_sync(false);
    assert_eq!(
        builder,
        SseBuilder {
            obj_id: id(),
            obj_type: PersistentObjectType::CryptoKeypair,
            storage_id: 7,
            flags: 0x11,
            attributes: Some(5),
            auto_sync: false,
        }
    );
    assert_eq!(builder.attributes(None).attributes, None);
}

#[test]
fn open_flushes_after_every_change() {
    let (resolution, request) =
        RandomAccessSse::open(id(), PersistentObjectType::Data, 3, 4, Some(9u8));
    assert_eq!(request, EngineRequest::Create);
    assert_eq!(
        resolution,
        Resolution {
            config: SseBuilder {
                obj_id: id(),
                obj_type: PersistentObjectType::Data,
                storage_id: 3,
                flags: 4,
                attributes: Some(9),
                auto_sync: true,
            },
            pending: Pending::Creating,
        }
    );
}

#[test]
fn a_created_object_is_flushed_and_measured() {
    let (asked, ended) = resolve(
        fresh().auto_sync(false),
        &[EngineReply::Object, EngineReply::Done, EngineReply::Length(0)],
    );
    assert_eq!(asked, vec![EngineRequest::Create, EngineRequest::Sync, EngineRequest::Metadata]);
    assert_eq!(ended, Resolved::Ready(RandomAccessSse::new(0, false)));
}

#[test]
fn a_conflict_on_creation_resolves_by_opening() {
    let (asked, ended) = resolve(
        fresh(),
        &[
            EngineReply::AccessConflict,
            EngineReply::Object,
            EngineReply::Done,
            EngineReply::Length(42),
        ],
    );
    assert_eq!(
        asked,
        vec![
            EngineRequest::Create,
            EngineRequest::Open,
            EngineRequest::Sync,
            EngineRequest::Metadata
        ]
    );
    match ended {
        Resolved::Ready(backend) => {
            assert_eq!(backend.len(), 42);
            assert!(backend.auto_sync());
        }
        other => panic!("{:?}", other),
    }
}

#[test]
fn any_other_failure_of_creation_is_fatal() {
    let (asked, ended) = resolve(fresh(), &[EngineReply::Failed]);
    assert_eq!(asked, vec![EngineRequest::Create]);
    assert_eq!(ended, Resolved::Failed(StorageError::Engine { operation: Operation::Create }));
}

#[test]
fn failures_after_the_conflict_are_fatal() {
    let (_, ended) =
        resolve(fresh(), &[EngineReply::AccessConflict, EngineReply::Failed]);
    assert_eq!(ended, Resolved::Failed(StorageError::Engine { operation: Operation::Open }));
    let (_, ended) = resolve(
        fresh(),
        &[EngineReply::AccessConflict, EngineReply::AccessConflict],
    );
    assert_eq!(ended, Resolved::Failed(StorageError::AccessConflict));
    let (_, ended) = resolve(fresh(), &[EngineReply::Object, EngineReply::Failed]);
    assert_eq!(ended, Resolved::Failed(StorageError::Engine { operation: Operation::Sync }));
    let (_, ended) = resolve(
        fresh(),
        &[EngineReply::Object, EngineReply::Done, EngineReply::Failed],
    );
    assert_eq!(ended, Resolved::Failed(StorageError::Engine { operation: Operation::Metadata }));
}

#[test]
fn replies_that_do_not_fit_are_refused() {
    let (_, ended) = resolve(fresh(), &[EngineReply::Done]);
    assert_eq!(ended, Resolved::Failed(StorageError::UnexpectedReply));
    let (_, ended) = resolve(fresh(), &[EngineReply::Object, EngineReply::Length(1)]);
    assert_eq!(ended, Resolved::Failed(StorageError::UnexpectedReply));
    let (_, ended) = resolve(
        fresh(),
        &[EngineReply::Object, EngineReply::Done, EngineReply::Object],
    );
    assert_eq!(ended, Resolved::Failed(StorageError::UnexpectedReply));
}

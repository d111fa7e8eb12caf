use std::io::{Error, ErrorKind};
use tj2::config::StrMap;
use tj2::db::ids::EntryId;
use tj2::fs::FileUpdaterPaths;
use tj2::router::api::journals::journals_id::entries::{
    sync_entry_step, SyncAction, SyncAnswer, SyncEvent, SyncStage,
};
use tj2::router::entries::flow::{
    create_entry_step, delete_entry_step, update_entry_step, CreateStage, DeleteStage, EntryAction,
    EntryEvent, UpdateStage,
};
use tj2::router::entries::listing::{group_entry_rows, EntryPartial, EntryRow};
use tj2::router::handles::journals::entries::files::{
    upload_step, UploadAction, UploadError, UploadEvent, UploadStage, WriteError,
};

fn row(id: i64, head: &str, key: Option<&str>, value: Option<&str>) -> EntryRow<String> {
    EntryRow {
        id: EntryId::new(id).unwrap(),
        head: head.to_string(),
        key: key.map(|k| k.to_string()),
        value: value.map(|v| v.to_string()),
    }
}

fn tags_of(p: &EntryPartial<String>) -> Vec<(String, Option<String>)> {
    let map: &StrMap<Option<String>> = &p.tags;
    map.entries().iter().map(|(k, v)| (k.clone(), v.clone())).collect()
}

#[test]
fn listing_groups_rows_of_one_entry() {
    let rows = vec![
        row(3, "third", Some("mood"), Some("good")),
        row(3, "ignored", Some("sleep"), None),
        row(1, "first", None, None),
        row(2, "second", Some("a"), Some("x")),
    ];
    let found = group_entry_rows(rows);
    assert_eq!(found.len(), 3);
    assert_eq!(*found[0].id.inner(), 3);
    assert_eq!(found[0].head, "third");
    assert_eq!(
        tags_of(&found[0]),
        vec![(String::from("mood"), Some(String::from("good"))), (String::from("sleep"), None)]
    );
    assert_eq!(*found[1].id.inner(), 1);
    assert!(tags_of(&found[1]).is_empty());
    assert_eq!(found[2].head, "second");
    assert_eq!(tags_of(&found[2]), vec![(String::from("a"), Some(String::from("x")))]);
}

#[test]
fn listing_of_no_rows_is_empty() {
    let found = group_entry_rows(Vec::<EntryRow<String>>::new());
    assert!(found.is_empty());
}

#[test]
fn listing_keeps_separate_runs_apart() {
    let found = group_entry_rows(vec![row(1, "a", None, None), row(2, "b", None, None), row(1, "c", None, None)]);
    assert_eq!(found.len(), 3);
    assert_eq!(found[2].head, "c");
}

#[test]
fn create_entry_with_files_runs_to_created() {
    let (s, a) = create_entry_step(CreateStage::Journal { files: true }, EntryEvent::Journal(true));
    assert_eq!(a, EntryAction::CheckPermission);
    let (s, a) = create_entry_step(s, EntryEvent::Permission(true));
    assert_eq!(a, EntryAction::Write);
    let (s, a) = create_entry_step(s, EntryEvent::Written);
    assert_eq!(a, EntryAction::CreateFiles);
    let (s, a) = create_entry_step(s, EntryEvent::Created(true));
    assert_eq!(a, EntryAction::Commit);
    let (s, a) = create_entry_step(s, EntryEvent::Committed(true));
    assert_eq!((s, a), (CreateStage::Done, EntryAction::Answer(201)));
}

#[test]
fn create_entry_refusals_and_rollbacks() {
    assert_eq!(
        create_entry_step(CreateStage::Journal { files: false }, EntryEvent::Journal(false)),
        (CreateStage::Done, EntryAction::Answer(404))
    );
    assert_eq!(
        create_entry_step(CreateStage::Permission { files: false }, EntryEvent::Permission(false)),
        (CreateStage::Done, EntryAction::Deny)
    );
    assert_eq!(
        create_entry_step(CreateStage::Write { files: false }, EntryEvent::Written),
        (CreateStage::Commit { created: false }, EntryAction::Commit)
    );
    assert_eq!(
        create_entry_step(CreateStage::Files, EntryEvent::Created(false)),
        (CreateStage::Done, EntryAction::DropCreatedAndFail)
    );
    assert_eq!(
        create_entry_step(CreateStage::Commit { created: true }, EntryEvent::Committed(false)),
        (CreateStage::Done, EntryAction::DropCreatedAndFail)
    );
    assert_eq!(
        create_entry_step(CreateStage::Commit { created: false }, EntryEvent::Committed(false)),
        (CreateStage::Done, EntryAction::Fail)
    );
    assert_eq!(
        create_entry_step(CreateStage::Write { files: true }, EntryEvent::Failed),
        (CreateStage::Done, EntryAction::Fail)
    );
}

#[test]
fn update_entry_steps() {
    assert_eq!(
        update_entry_step(UpdateStage::Journal, EntryEvent::Journal(false)),
        (UpdateStage::Done, EntryAction::Answer(404))
    );
    assert_eq!(
        update_entry_step(UpdateStage::Permission, EntryEvent::Permission(true)),
        (UpdateStage::Entry, EntryAction::LookUpEntry)
    );
    assert_eq!(
        update_entry_step(UpdateStage::Entry, EntryEvent::Entry(None)),
        (UpdateStage::Done, EntryAction::Answer(404))
    );
    assert_eq!(
        update_entry_step(UpdateStage::Entry, EntryEvent::Entry(Some(true))),
        (UpdateStage::Write, EntryAction::Write)
    );
    assert_eq!(update_entry_step(UpdateStage::Write, EntryEvent::Written), (UpdateStage::Commit, EntryAction::Commit));
    assert_eq!(
        update_entry_step(UpdateStage::Commit, EntryEvent::Committed(true)),
        (UpdateStage::Done, EntryAction::Answer(200))
    );
    assert_eq!(
        update_entry_step(UpdateStage::Commit, EntryEvent::Committed(false)),
        (UpdateStage::Done, EntryAction::Fail)
    );
}

#[test]
fn delete_entry_with_files_drops_marks_after_commit() {
    let (s, a) = delete_entry_step(DeleteStage::Journal, EntryEvent::Journal(true));
    assert_eq!(a, EntryAction::CheckPermission);
    let (s, a) = delete_entry_step(s, EntryEvent::Permission(true));
    assert_eq!(a, EntryAction::LookUpEntry);
    let (s, a) = delete_entry_step(s, EntryEvent::Entry(Some(true)));
    assert_eq!(a, EntryAction::Write);
    let (s, a) = delete_entry_step(s, EntryEvent::Written);
    assert_eq!(a, EntryAction::MarkFiles);
    let (s, a) = delete_entry_step(s, EntryEvent::Marked(true));
    assert_eq!((s, a), (DeleteStage::Row { marked: true }, EntryAction::DeleteRow));
    let (s, a) = delete_entry_step(s, EntryEvent::Written);
    assert_eq!(a, EntryAction::Commit);
    let (s, a) = delete_entry_step(s, EntryEvent::Committed(true));
    assert_eq!((s, a), (DeleteStage::Done, EntryAction::DropMarkedAndAnswer(200)));
}

#[test]
fn delete_entry_failures_unmark() {
    assert_eq!(
        delete_entry_step(DeleteStage::Entry, EntryEvent::Entry(None)),
        (DeleteStage::Done, EntryAction::Answer(404))
    );
    assert_eq!(
        delete_entry_step(DeleteStage::Permission, EntryEvent::Permission(false)),
        (DeleteStage::Done, EntryAction::Deny)
    );
    assert_eq!(
        delete_entry_step(DeleteStage::Marking, EntryEvent::Marked(false)),
        (DeleteStage::Done, EntryAction::UnmarkAndFail)
    );
    assert_eq!(
        delete_entry_step(DeleteStage::Row { marked: true }, EntryEvent::Failed),
        (DeleteStage::Done, EntryAction::UnmarkAndFail)
    );
    assert_eq!(
        delete_entry_step(DeleteStage::Row { marked: false }, EntryEvent::Failed),
        (DeleteStage::Done, EntryAction::Fail)
    );
    assert_eq!(
        delete_entry_step(DeleteStage::Commit { marked: true }, EntryEvent::Committed(false)),
        (DeleteStage::Done, EntryAction::UnmarkAndFail)
    );
    assert_eq!(
        delete_entry_step(DeleteStage::Write { files: false }, EntryEvent::Written),
        (DeleteStage::Row { marked: false }, EntryAction::DeleteRow)
    );
    assert_eq!(
        delete_entry_step(DeleteStage::Commit { marked: false }, EntryEvent::Committed(true)),
        (DeleteStage::Done, EntryAction::Answer(200))
    );
}

#[test]
fn upload_runs_to_answer() {
    let (s, a) = upload_step(UploadStage::Journal, UploadEvent::Journal(true));
    assert_eq!(a, UploadAction::CheckPermission);
    let (s, a) = upload_step(s, UploadEvent::Permission(true));
    assert_eq!(a, UploadAction::LookUpFile);
    let (s, a) = upload_step(s, UploadEvent::File(Some(true)));
    assert_eq!(a, UploadAction::ReadHeaders);
    let (s, a) = upload_step(s, UploadEvent::Headers { media: true, hash: true });
    assert_eq!(a, UploadAction::CreateFile);
    let (s, a) = upload_step(s, UploadEvent::Created(true));
    assert_eq!(a, UploadAction::WriteBody);
    let (s, a) = upload_step(s, UploadEvent::BodyWritten);
    assert_eq!(a, UploadAction::Promote);
    let (s, a) = upload_step(s, UploadEvent::Written);
    assert_eq!(a, UploadAction::Commit);
    let (s, a) = upload_step(s, UploadEvent::Committed(true));
    assert_eq!((s, a), (UploadStage::Done, UploadAction::Answer));
}

#[test]
fn upload_refusals_in_order() {
    assert_eq!(
        upload_step(UploadStage::Journal, UploadEvent::Journal(false)).1,
        UploadAction::Refuse(UploadError::JournalNotFound)
    );
    assert_eq!(upload_step(UploadStage::Permission, UploadEvent::Permission(false)).1, UploadAction::Deny);
    assert_eq!(
        upload_step(UploadStage::File, UploadEvent::File(None)).1,
        UploadAction::Refuse(UploadError::FileNotFound)
    );
    assert_eq!(
        upload_step(UploadStage::Headers { requested: false }, UploadEvent::Headers { media: false, hash: false }).1,
        UploadAction::Refuse(UploadError::InvalidContentType)
    );
    assert_eq!(
        upload_step(UploadStage::Headers { requested: false }, UploadEvent::Headers { media: true, hash: false }).1,
        UploadAction::Refuse(UploadError::InvalidHash)
    );
    assert_eq!(
        upload_step(UploadStage::Headers { requested: false }, UploadEvent::Headers { media: true, hash: true }).1,
        UploadAction::Refuse(UploadError::NotRequestedFile)
    );
    assert_eq!(upload_step(UploadStage::Create, UploadEvent::Created(false)).1, UploadAction::Fail);
    assert_eq!(
        upload_step(UploadStage::Body, UploadEvent::BodyRefused(WriteError::TooLarge)).1,
        UploadAction::CleanAndRefuse(UploadError::TooLarge)
    );
    assert_eq!(
        upload_step(UploadStage::Body, UploadEvent::BodyRefused(WriteError::TooSmall)).1,
        UploadAction::CleanAndRefuse(UploadError::TooSmall)
    );
    assert_eq!(upload_step(UploadStage::Body, UploadEvent::Failed).1, UploadAction::CleanAndFail);
    assert_eq!(upload_step(UploadStage::Promote, UploadEvent::Failed).1, UploadAction::CleanAndFail);
    assert_eq!(upload_step(UploadStage::Commit, UploadEvent::Committed(false)).1, UploadAction::RemoveAndFail);
}

#[test]
fn sync_entry_runs_to_synced() {
    let (s, a) = sync_entry_step(SyncStage::Journal, SyncEvent::Journal(Some(true)));
    assert_eq!(a, SyncAction::UpsertEntry);
    let (s, a) = sync_entry_step(s, SyncEvent::Written);
    assert_eq!(a, SyncAction::UpsertTags);
    let (s, a) = sync_entry_step(s, SyncEvent::Written);
    assert_eq!(a, SyncAction::UpsertCustomFields);
    let (s, a) = sync_entry_step(s, SyncEvent::CustomFields { not_found: false, invalid: false });
    assert_eq!(a, SyncAction::UpsertFiles);
    let (s, a) = sync_entry_step(s, SyncEvent::Files { not_found: false });
    assert_eq!(a, SyncAction::Commit);
    let (s, a) = sync_entry_step(s, SyncEvent::Committed(true));
    assert_eq!((s, a), (SyncStage::Done, SyncAction::CleanAndAnswer));
}

#[test]
fn sync_entry_answers() {
    let not_found = SyncAction::Answer(SyncAnswer::JournalNotFound);
    assert_eq!(sync_entry_step(SyncStage::Journal, SyncEvent::Journal(None)).1, not_found);
    assert_eq!(sync_entry_step(SyncStage::Journal, SyncEvent::Journal(Some(false))).1, not_found);
    assert_eq!(
        sync_entry_step(SyncStage::CustomFields, SyncEvent::CustomFields { not_found: true, invalid: true }).1,
        SyncAction::Answer(SyncAnswer::CFNotFound)
    );
    assert_eq!(
        sync_entry_step(SyncStage::CustomFields, SyncEvent::CustomFields { not_found: false, invalid: true }).1,
        SyncAction::Answer(SyncAnswer::CFInvalid)
    );
    assert_eq!(
        sync_entry_step(SyncStage::Files, SyncEvent::Files { not_found: true }).1,
        SyncAction::Answer(SyncAnswer::FileNotFound)
    );
    assert_eq!(sync_entry_step(SyncStage::Commit, SyncEvent::Committed(false)).1, SyncAction::RollbackAndFail);
    assert_eq!(sync_entry_step(SyncStage::Tags, SyncEvent::Failed).1, SyncAction::Fail);
}

#[test]
fn rollback_after_update() {
    let paths = FileUpdaterPaths::new("/data/entry.file").unwrap();
    let updated = match paths.after_temp_move(Ok(())) {
        Ok(u) => u,
        Err(_) => panic!("the move worked"),
    };
    assert_eq!(updated.prev(), "/data/entry.file.prev");
    let back = updated.after_rollback(Err(Error::new(ErrorKind::Other, "busy"))).unwrap_err();
    assert_eq!(back.0.curr(), "/data/entry.file");
    assert_eq!(back.1.kind(), ErrorKind::Other);
    assert!(back.0.after_rollback(Ok(())).is_ok());
}

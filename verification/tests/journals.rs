use tj2::db::ids::{CustomFieldId, FileEntryId, UserPeerId};
use tj2::router::api::journals::journals_id::entries::{
    file_sync_insert_query, file_sync_update_query, plan_cf_sync, plan_file_sync, tag_sync_query, EntryCFSync,
    EntryFileSync, JournalField, KnownFile,
};
use tj2::journal::custom_field::{TimeType, Type};
use tj2::router::journals::{
    duplicate_names, plan_custom_fields, plan_journal_peers, ExistingCustomField, FieldsPlan, NewCustomField,
    SyncResult, UpdateCustomField, UpdateJournalError,
};

fn s(v: &str) -> String {
    v.to_string()
}

#[test]
fn repeated_custom_field_names() {
    let names = vec![s("mood"), s("sleep"), s("mood"), s("mood"), s("food")];
    assert_eq!(duplicate_names(&names), vec![s("mood"), s("mood")]);
    assert!(duplicate_names(&vec![s("a"), s("b")]).is_empty());
}

#[test]
fn peers_of_a_journal() {
    let p1 = UserPeerId::new(1).unwrap();
    let p2 = UserPeerId::new(2).unwrap();
    let p9 = UserPeerId::new(9).unwrap();
    let known = vec![(p1, s("alpha")), (p2, s("beta"))];
    let plan = plan_journal_peers(&vec![p2, p1, p2], &known);
    assert_eq!(plan.taken, vec![(p2, s("beta")), (p1, s("alpha"))]);
    assert!(plan.not_found.is_empty());
    assert_eq!(plan.query, "insert into journal_peers (journals_id, user_peers_id) values ($1, $2), ($1, $3)");
    let plan = plan_journal_peers(&vec![p1, p9], &known);
    assert_eq!(plan.not_found, vec![p9]);
}

#[test]
fn sync_answers() {
    assert!(matches!(SyncResult::from_started(vec![]), SyncResult::Noop));
    assert!(matches!(SyncResult::from_started(vec![s("a")]), SyncResult::Queued { .. }));
    assert_eq!(UpdateJournalError::JournalNotFound.status(), 404);
    assert_eq!(UpdateJournalError::NameExists.status(), 400);
}

#[test]
fn files_of_a_synced_entry() {
    let id1 = FileEntryId::new(1).unwrap();
    let id2 = FileEntryId::new(2).unwrap();
    let known = vec![KnownFile { uid: s("aaaa"), id: id1 }, KnownFile { uid: s("bbbb"), id: id2 }];
    let files = vec![
        EntryFileSync { uid: s("aaaa"), name: Some(s("one")) },
        EntryFileSync { uid: s("aaaa"), name: Some(s("again")) },
        EntryFileSync { uid: s("cccc"), name: None },
        EntryFileSync { uid: s("dddd"), name: None },
        EntryFileSync { uid: s("cccc"), name: Some(s("dup")) },
    ];
    let attached = vec![false, false, false, true, false];
    let plan = plan_file_sync(&known, &files, &attached);
    assert_eq!(plan.updates, vec![(s("aaaa"), id1, Some(s("one")))]);
    assert_eq!(plan.inserts, vec![(s("cccc"), None)]);
    assert_eq!(plan.to_drop, vec![s("bbbb")]);
}

#[test]
fn file_sync_queries() {
    assert_eq!(
        file_sync_insert_query(2),
        "insert into file_entries ( entries_id, status, created, uid, name, mime_type, mime_subtype, hash ) values ($1, $2, $3, $4, $5, '', '', ''), ($1, $2, $3, $6, $7, '', '', '')"
    );
    assert_eq!(
        file_sync_update_query(2),
        "update file_entries set name = tmp_update.name, updated = $1 from (values ($2, $3), ($4, $5)"
    );
}

#[test]
fn custom_fields_of_a_synced_entry() {
    let f1 = CustomFieldId::new(11).unwrap();
    let fields = vec![JournalField { uid: s("f1"), id: f1 }];
    let cfs = vec![EntryCFSync { custom_fields_uid: s("f1") }, EntryCFSync { custom_fields_uid: s("zz") }];
    let plan = plan_cf_sync(&fields, &cfs);
    assert_eq!(plan.rows, vec![(0usize, f1)]);
    assert_eq!(plan.not_found, vec![s("zz")]);
    assert_eq!(
        plan.query,
        "with tmp_insert as ( insert into custom_field_entries (entries_id, custom_fields_id, value, created, updated) values ($1, $2, $3, $4, $5)"
    );
    assert!(plan.full_query().ends_with("custom_field_entries.custom_fields_id != tmp_insert.custom_fields_id"));
    let cfs = vec![EntryCFSync { custom_fields_uid: s("zz") }, EntryCFSync { custom_fields_uid: s("f1") }];
    let plan = plan_cf_sync(&fields, &cfs);
    assert!(plan.query.ends_with("values , ($1, $2, $3, $4, $5)"));
    let fields = vec![JournalField { uid: s("f1"), id: f1 }, JournalField { uid: s("f2"), id: cf(12) }];
    let cfs = vec![
        EntryCFSync { custom_fields_uid: s("f2") },
        EntryCFSync { custom_fields_uid: s("zz") },
        EntryCFSync { custom_fields_uid: s("f1") },
    ];
    let plan = plan_cf_sync(&fields, &cfs);
    assert_eq!(plan.rows, vec![(0usize, cf(12)), (2usize, f1)]);
    assert!(plan.query.ends_with("values ($1, $2, $3, $4, $5), ($1, $6, $7, $8, $9)"));
    let cfs = vec![
        EntryCFSync { custom_fields_uid: s("f2") },
        EntryCFSync { custom_fields_uid: s("zz") },
        EntryCFSync { custom_fields_uid: s("zz") },
        EntryCFSync { custom_fields_uid: s("f1") },
    ];
    let plan = plan_cf_sync(&fields, &cfs);
    assert!(plan.query.ends_with("values ($1, $2, $3, $4, $5), ($1, $6, $7, $8, $9)"));
}

fn cf(n: i64) -> CustomFieldId {
    CustomFieldId::new(n).unwrap()
}

fn existing_field(id: i64, name: &str) -> UpdateCustomField<(), ()> {
    UpdateCustomField::Existing(ExistingCustomField { id: cf(id), name: s(name), order: 0, description: None })
}

fn new_field(name: &str) -> UpdateCustomField<(), ()> {
    UpdateCustomField::New(NewCustomField { name: s(name), order: 1, config: Type::Time(TimeType {}), description: None })
}

#[test]
fn custom_fields_update_plan() {
    let existing = vec![cf(1), cf(2), cf(3)];
    let fields = vec![existing_field(2, "mood"), new_field("sleep"), existing_field(1, "weight")];
    match plan_custom_fields(&existing, &fields) {
        FieldsPlan::Apply { updates, inserts, deletes } => {
            assert_eq!(updates, vec![0, 2]);
            assert_eq!(inserts, vec![1]);
            assert_eq!(deletes, vec![cf(3)]);
        }
        other => panic!("expected the change to apply, got {other:?}"),
    }
}

#[test]
fn custom_fields_update_refusals() {
    let existing = vec![cf(1), cf(2)];
    let twice = vec![existing_field(1, "mood"), new_field("mood"), new_field("mood")];
    match plan_custom_fields(&existing, &twice) {
        FieldsPlan::Duplicates(names) => assert_eq!(names, vec![s("mood"), s("mood")]),
        other => panic!("expected duplicates, got {other:?}"),
    }
    let missing = vec![existing_field(9, "mood"), existing_field(1, "a"), existing_field(1, "b")];
    match plan_custom_fields(&existing, &missing) {
        FieldsPlan::NotFound(ids) => assert_eq!(ids, vec![cf(9), cf(1)]),
        other => panic!("expected missing ids, got {other:?}"),
    }
    match plan_custom_fields::<(), ()>(&existing, &Vec::new()) {
        FieldsPlan::Apply { updates, inserts, deletes } => {
            assert!(updates.is_empty() && inserts.is_empty());
            assert_eq!(deletes, vec![cf(1), cf(2)]);
        }
        other => panic!("expected everything to be deleted, got {other:?}"),
    }
}

#[test]
fn synced_tags_query() {
    assert_eq!(tag_sync_query(0), "delete from entry_tags where entries_id = $1");
    assert_eq!(
        tag_sync_query(2),
        "with tmp_insert as ( insert into entry_tags (entries_id, key, value, created, updated) values \
         ($1, $2, $3, $4, $5), ($1, $6, $7, $8, $9) \
         on conflict (entries_id, key) do update set key = excluded.key, value = excluded.value, \
         updated = excluded.updated returning entries_id, key ) delete from entry_tags using tmp_insert \
         where entry_tags.entries_id = tmp_insert.entries_id and entry_tags.key != tmp_insert.key"
    );
}

use tj2::db::ids::{EntryId, FileEntryId, JournalUid};
use tj2::jobs::sync::{
    entries_path, send_outcome, split_outcomes, update_synced_query, BatchResults, SyncProgress, BATCH_SIZE,
};
use tj2::router::entries::files::{mark_remove_paths, mime_params_text};
use tj2::text::{push_signed_decimal, trimmed_pieces};

fn id(n: i64) -> EntryId {
    EntryId::new(n).unwrap()
}

#[test]
fn batches_stop_after_a_short_batch() {
    let mut progress = SyncProgress::new();
    let result = BatchResults { last_id: id(7), counted: 3, successful: vec![id(5), id(6)], failed: vec![id(7)] };
    assert!(!progress.record(&result));
    assert_eq!(progress.batches, 0);
    assert_eq!(progress.prev_entry, EntryId::zero());
    assert_eq!(progress.total_successful, 2);
    assert_eq!(progress.total_failed, 1);
}

#[test]
fn batches_stop_at_the_limit() {
    let mut progress = SyncProgress::new();
    let full = |last: i64| BatchResults {
        last_id: id(last),
        counted: BATCH_SIZE,
        successful: (1..=BATCH_SIZE).map(id).collect(),
        failed: Vec::new(),
    };
    assert!(progress.record(&full(50)));
    assert_eq!(progress.prev_entry, id(50));
    assert_eq!(progress.batches, 1);
    assert!(!progress.record(&full(100)));
    assert_eq!(progress.prev_entry, id(100));
    assert_eq!(progress.batches, 2);
    assert_eq!(progress.total_successful, 100);
}

#[test]
fn peer_answers() {
    assert_eq!(send_outcome(201, id(4)), Ok(id(4)));
    assert_eq!(send_outcome(200, id(4)), Err(id(4)));
    assert_eq!(send_outcome(500, id(4)), Err(id(4)));
}

#[test]
fn outcomes_are_split_in_order() {
    let (ok, failed) = split_outcomes(&vec![Ok(id(1)), Err(id(2)), Ok(id(3)), Err(id(4))]);
    assert_eq!(ok, vec![id(1), id(3)]);
    assert_eq!(failed, vec![id(2), id(4)]);
    assert_eq!(ok.len() + failed.len(), 4);
}

#[test]
fn synced_query() {
    assert_eq!(update_synced_query(&Vec::new()), None);
    assert_eq!(
        update_synced_query(&vec![id(1), id(2)]).unwrap(),
        "insert into synced_entries (entries_id, user_peers_id, status, updated) values \
         ($4, $1, $2, $3), ($5, $1, $2, $3) \
         on conflict (entries_id, user_peers_id) do update set status = excluded.status, updated = excluded.updated"
    );
}

#[test]
fn peer_entries_path() {
    let uid = JournalUid::new("abcdefghijklmnop".to_owned()).unwrap();
    assert_eq!(entries_path(&uid), "/api/journals/abcdefghijklmnop/entries");
}

#[test]
fn marked_file_paths() {
    let ids = vec![FileEntryId::new(12).unwrap(), FileEntryId::new(3).unwrap()];
    let paths = mark_remove_paths("/data/files", &ids);
    assert_eq!(
        paths,
        vec![
            ("/data/files/12.file.rm".to_owned(), "/data/files/12.file".to_owned()),
            ("/data/files/3.file.rm".to_owned(), "/data/files/3.file".to_owned()),
        ]
    );
}

#[test]
fn media_params() {
    assert_eq!(mime_params_text(&Vec::new()), None);
    assert_eq!(
        mime_params_text(&vec![("charset".to_owned(), "utf-8".to_owned())]),
        Some("charset=utf-8".to_owned())
    );
    assert_eq!(
        mime_params_text(&vec![("a".to_owned(), "1".to_owned()), ("b".to_owned(), "2".to_owned())]),
        Some("a=1;b=2".to_owned())
    );
}

#[test]
fn signed_decimals() {
    let mut s = String::from("n=");
    push_signed_decimal(&mut s, -120);
    assert_eq!(s, "n=-120");
    let mut s = String::new();
    push_signed_decimal(&mut s, i64::MIN);
    assert_eq!(s, "-9223372036854775808");
    let mut s = String::new();
    push_signed_decimal(&mut s, 0);
    assert_eq!(s, "0");
}

#[test]
fn trimmed_text_pieces() {
    assert_eq!(trimmed_pieces(" a , ,b,", ','), vec!["a".to_owned(), "b".to_owned()]);
}

use tj2::journal::EntryTag;
use tj2::router::entries::{
    file_insert_query, new_entry_tags, non_empty_str, opt_non_empty_str, reconcile_tags,
    tag_insert_query, tag_upsert_query, Attached, ClientData, TagEntryBody,
};
use tj2::time::Timestamp;

fn tag(key: &str, value: Option<&str>) -> TagEntryBody {
    TagEntryBody { key: key.to_string(), value: value.map(|v| v.to_string()) }
}

fn at(secs: i64) -> Timestamp {
    Timestamp { secs, nanos: 0 }
}

fn stored(key: &str, value: Option<&str>, created: i64) -> EntryTag {
    EntryTag { key: key.to_string(), value: value.map(|v| v.to_string()), created: at(created), updated: None }
}

#[test]
fn text_is_trimmed_or_dropped() {
    assert_eq!(non_empty_str(String::from("  hi  ")), Some(String::from("hi")));
    assert_eq!(non_empty_str(String::from(" \t\n")), None);
    assert_eq!(non_empty_str(String::new()), None);
    assert_eq!(opt_non_empty_str(Some(String::from(" x"))), Some(String::from("x")));
    assert_eq!(opt_non_empty_str(Some(String::from("  "))), None);
    assert_eq!(opt_non_empty_str(None), None);
}

#[test]
fn tags_of_a_new_entry() {
    let sent = vec![tag(" mood ", Some(" good ")), tag("  ", Some("lost")), tag("place", Some("  ")), tag("x", None)];
    let tags = new_entry_tags(&sent, at(100));
    assert_eq!(tags.len(), 3);
    assert_eq!(tags[0].key, "mood");
    assert_eq!(tags[0].value.as_deref(), Some("good"));
    assert_eq!(tags[0].created, at(100));
    assert!(tags[0].updated.is_none());
    assert_eq!(tags[1].key, "place");
    assert_eq!(tags[1].value, None);
    assert_eq!(tags[2].key, "x");
}

#[test]
fn tag_queries() {
    assert_eq!(
        tag_insert_query(0),
        "insert into entry_tags (entries_id, key, value, created) values "
    );
    assert_eq!(
        tag_insert_query(2),
        "insert into entry_tags (entries_id, key, value, created) values ($1, $3, $4, $2), ($1, $5, $6, $2)"
    );
    assert_eq!(
        tag_upsert_query(1),
        "insert into entry_tags (entries_id, key, value, created) values ($1, $3, $4, $2) on conflict (entries_id, key) do update set value = EXCLUDED.value, updated = EXCLUDED.created"
    );
}

#[test]
fn file_query() {
    assert_eq!(
        file_insert_query(2),
        "insert into file_entries ( uid, entries_id, name, mime_type, mime_subtype, created ) values ($3, $1, $4, $5, $6, $2), ($7, $1, $8, $9, $10, $2) returning id"
    );
}

#[test]
fn reconcile_changes_keeps_adds_and_removes() {
    let current = vec![stored("a", Some("1"), 10), stored("b", Some("2"), 11), stored("c", None, 12)];
    let sent = vec![tag("a", Some("9")), tag(" b ", Some("2")), tag("d", None), tag("", Some("z"))];
    let changes = reconcile_tags(current, &sent, at(50));
    assert_eq!(changes.changed.len(), 2);
    assert_eq!(changes.changed[0].key, "a");
    assert_eq!(changes.changed[0].value.as_deref(), Some("9"));
    assert_eq!(changes.changed[0].created, at(10));
    assert_eq!(changes.changed[0].updated, Some(at(50)));
    assert_eq!(changes.changed[1].key, "d");
    assert_eq!(changes.changed[1].created, at(50));
    assert_eq!(changes.changed[1].updated, None);
    assert_eq!(changes.unchanged.len(), 1);
    assert_eq!(changes.unchanged[0].key, "b");
    assert_eq!(changes.removed, vec![String::from("c")]);
}

#[test]
fn reconcile_with_nothing_sent_removes_all() {
    let current = vec![stored("a", None, 1), stored("b", None, 2)];
    let changes = reconcile_tags(current, &Vec::new(), at(3));
    assert!(changes.changed.is_empty());
    assert!(changes.unchanged.is_empty());
    assert_eq!(changes.removed, vec![String::from("a"), String::from("b")]);
}

#[test]
fn attached_data() {
    let a = Attached::from_parts(5, ClientData { key: String::from("k") });
    assert_eq!(a.inner, 5);
    assert_eq!(a.attached.key, "k");
}

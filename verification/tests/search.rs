use tj2::router::handles::journals::entries::search::{
    search_plan, SearchEntriesError, SearchQuery, SearchSize,
};

const SELECT: &str = "select entries.id, entries.uid, entries.journals_id, entries.users_id, entries.title, entries.entry_date, entries.created, entries.updated from entries ";

#[test]
fn search_sizes() {
    assert_eq!(SearchSize::Month.days(), 31);
    assert_eq!(SearchSize::HalfYear.days(), 183);
    assert_eq!(SearchSize::Year.days(), 366);
    assert_eq!(SearchSize::default(), SearchSize::Year);
    assert!(SearchSize::Year.in_batches(75));
    assert!(!SearchSize::Month.in_batches(75));
}

#[test]
fn search_without_dates() {
    let plan = search_plan(&SearchQuery { start_date: None, end_date: None, size: SearchSize::Year }).unwrap();
    assert_eq!(plan.sql, format!("{SELECT} where entries.journals_id = $1 order by entries.entry_date desc"));
    assert!(plan.dates.is_empty());
}

#[test]
fn search_with_both_dates() {
    let plan = search_plan(&SearchQuery { start_date: Some(10), end_date: Some(20), size: SearchSize::Month }).unwrap();
    assert_eq!(
        plan.sql,
        format!("{SELECT} where entries.journals_id = $1 and entries.entry_date >= $2 and entries.entry_date <= $3 order by entries.entry_date desc")
    );
    assert_eq!(plan.dates, vec![10, 20]);
}

#[test]
fn search_with_end_only() {
    let plan = search_plan(&SearchQuery { start_date: None, end_date: Some(20), size: SearchSize::Month }).unwrap();
    assert_eq!(
        plan.sql,
        format!("{SELECT} where entries.journals_id = $1 and entries.entry_date <= $2 order by entries.entry_date desc")
    );
    assert_eq!(plan.dates, vec![20]);
}

#[test]
fn search_refuses_end_before_start() {
    let result = search_plan(&SearchQuery { start_date: Some(21), end_date: Some(20), size: SearchSize::Year });
    assert!(matches!(result, Err(SearchEntriesError::InvalidEndDate)));
    assert!(search_plan(&SearchQuery { start_date: Some(20), end_date: Some(20), size: SearchSize::Year }).is_ok());
    assert_eq!(SearchEntriesError::InvalidEndDate.status(), 400);
    assert_eq!(SearchEntriesError::JournalNotFound.status(), 404);
}

use rust_todo_list::codec::{assemble_document, assemble_list};
use rust_todo_list::timestamp::{MAX_SECS, MIN_SECS};
use rust_todo_list::{
    dump_todo_list, load_todo_list, or_empty_if_missing, IoErrorKind, SerdeError, StoredList,
    Timestamp, TodoItem, TodoList,
};

fn item(d: &str, completed: bool) -> TodoItem {
    TodoItem { description: d.to_string(), completed }
}

#[test]
fn dump_writes_rfc3339_text() {
    let l = TodoList::with_items(vec![item("a", true)], Timestamp::new(1_700_000_000, 0));
    let d = dump_todo_list(&l).unwrap();
    assert_eq!(d.last_updated, "2023-11-14T22:13:20Z");
    assert_eq!(d.items.len(), 1);
    assert_eq!(d.items[0].description, "a");
    assert!(d.items[0].completed);
}

#[test]
fn dump_writes_fraction_digits() {
    let l = TodoList::with_items(vec![], Timestamp::new(0, 123_456_789));
    let d = dump_todo_list(&l).unwrap();
    assert_eq!(d.last_updated, "1970-01-01T00:00:00.123456789Z");
}

#[test]
fn dump_succeeds_at_the_ends_of_the_range() {
    let last = TodoList::with_items(vec![], Timestamp::new(MAX_SECS, 999_999_999));
    let d = dump_todo_list(&last).unwrap();
    assert_eq!(d.last_updated, "+262142-12-31T23:59:59.999999999Z");
    let first = TodoList::with_items(vec![], Timestamp::new(MIN_SECS, 0));
    let d = dump_todo_list(&first).unwrap();
    assert_eq!(d.last_updated, "-262143-01-01T00:00:00Z");
    assert_eq!(load_todo_list(d).unwrap().last_updated(), Timestamp::new(MIN_SECS, 0));
}

#[test]
fn range_matches_chrono() {
    assert_eq!(chrono::DateTime::<chrono::Utc>::MIN_UTC.timestamp(), MIN_SECS);
    assert_eq!(chrono::DateTime::<chrono::Utc>::MAX_UTC.timestamp(), MAX_SECS);
}

#[test]
fn validity_of_instants() {
    assert!(Timestamp::new(0, 0).is_valid());
    assert!(Timestamp::new(MAX_SECS, 999_999_999).is_valid());
    assert!(!Timestamp::new(MAX_SECS + 1, 0).is_valid());
    assert!(Timestamp::new(MIN_SECS, 0).is_valid());
    assert!(!Timestamp::new(MIN_SECS - 1, 0).is_valid());
    assert!(!Timestamp::new(i64::MAX, 0).is_valid());
    assert!(Timestamp::new(59, 1_999_999_999).is_valid());
    assert!(!Timestamp::new(59, 2_000_000_000).is_valid());
    assert!(!Timestamp::new(58, 1_000_000_000).is_valid());
    assert!(Timestamp::new(-1, 1_500_000_000).is_valid());
    assert!(!Timestamp::new(-59, 1_500_000_000).is_valid());
}

#[test]
fn leap_second_before_1970_is_dumped() {
    let l = TodoList::with_items(vec![], Timestamp::new(-1, 1_500_000_000));
    let d = dump_todo_list(&l).unwrap();
    assert_eq!(d.last_updated, "1969-12-31T23:59:60.500Z");
    assert_eq!(load_todo_list(d).unwrap().last_updated(), Timestamp::new(-1, 1_500_000_000));
}

#[test]
fn load_reads_instant_and_items() {
    let s = StoredList {
        items: vec![item("x", false), item("y", true)],
        last_updated: "2023-11-14T22:13:20.5+00:00".to_string(),
    };
    let l = load_todo_list(s).unwrap();
    assert_eq!(l.last_updated(), Timestamp::new(1_700_000_000, 500_000_000));
    assert_eq!(l.len(), 2);
    assert_eq!(l.iter()[0].description, "x");
    assert!(l.iter()[1].completed);
}

#[test]
fn load_converts_offset_to_utc() {
    let s = StoredList { items: vec![], last_updated: "1970-01-01T01:00:00+01:00".to_string() };
    let l = load_todo_list(s).unwrap();
    assert_eq!(l.last_updated(), Timestamp::new(0, 0));
}

#[test]
fn load_bad_instant_is_parse_error() {
    let s = StoredList { items: vec![], last_updated: "yesterday".to_string() };
    assert!(matches!(load_todo_list(s), Err(SerdeError::Parse(_))));
}

#[test]
fn round_trip_keeps_everything() {
    let items = vec![item("first", false), item("", true), item("ünïcode \"quoted\"", false)];
    let l = TodoList::with_items(items, Timestamp::new(1_234_567_890, 987_654_321));
    let back = load_todo_list(dump_todo_list(&l).unwrap()).unwrap();
    assert_eq!(back.last_updated(), l.last_updated());
    assert_eq!(back.len(), 3);
    for i in 0..3 {
        assert_eq!(back.iter()[i].description, l.iter()[i].description);
        assert_eq!(back.iter()[i].completed, l.iter()[i].completed);
    }
}

#[test]
fn round_trip_empty_list() {
    let l = TodoList::default();
    let back = load_todo_list(dump_todo_list(&l).unwrap()).unwrap();
    assert!(back.is_empty());
    assert_eq!(back.last_updated(), l.last_updated());
}

#[test]
fn assemble_document_without_text_fails() {
    assert!(matches!(assemble_document(vec![], None), Err(SerdeError::Format(_))));
    let d = assemble_document(vec![item("a", false)], Some("t".to_string())).unwrap();
    assert_eq!(d.last_updated, "t");
}

#[test]
fn assemble_list_from_instant() {
    assert!(matches!(assemble_list(vec![], None), Err(SerdeError::Parse(_))));
    let l = assemble_list(vec![item("a", false)], Some((9, 8))).unwrap();
    assert_eq!(l.last_updated(), Timestamp::new(9, 8));
    assert_eq!(l.len(), 1);
}

#[test]
fn missing_file_starts_empty() {
    let r = or_empty_if_missing(Err(SerdeError::IO(IoErrorKind::NotFound, "gone".to_string())));
    assert!(r.unwrap().is_empty());
}

#[test]
fn other_io_error_is_kept() {
    let r = or_empty_if_missing(Err(SerdeError::IO(IoErrorKind::Other, "denied".to_string())));
    assert!(matches!(r, Err(SerdeError::IO(IoErrorKind::Other, _))));
    let r = or_empty_if_missing(Err(SerdeError::Parse("bad".to_string())));
    assert!(matches!(r, Err(SerdeError::Parse(_))));
}

#[test]
fn loaded_list_is_kept() {
    let l = TodoList::with_items(vec![item("a", false)], Timestamp::new(3, 0));
    let r = or_empty_if_missing(Ok(l)).unwrap();
    assert_eq!(r.len(), 1);
    assert_eq!(r.last_updated(), Timestamp::new(3, 0));
}

#[test]
fn error_messages() {
    assert_eq!(
        SerdeError::IO(IoErrorKind::NotFound, String::new()).message(),
        "failed to read or write given file"
    );
    assert_eq!(SerdeError::Parse(String::new()).message(), "failed to parse file contents");
    assert_eq!(SerdeError::Format(String::new()).message(), "failed to serialize todo list");
}

#[test]
fn year_past_9999_round_trips() {
    let l = TodoList::with_items(vec![], Timestamp::new(253_402_300_800, 0));
    let d = dump_todo_list(&l).unwrap();
    assert_eq!(d.last_updated, "+10000-01-01T00:00:00Z");
    assert_eq!(load_todo_list(d).unwrap().last_updated(), Timestamp::new(253_402_300_800, 0));
}

#[test]
fn leap_second_instant_round_trips() {
    let l = TodoList::with_items(vec![], Timestamp::new(59, 1_500_000_000));
    let d = dump_todo_list(&l).unwrap();
    assert_eq!(d.last_updated, "1970-01-01T00:00:60.500Z");
    assert_eq!(load_todo_list(d).unwrap().last_updated(), Timestamp::new(59, 1_500_000_000));
}

#[test]
fn assemble_list_rejects_instant_out_of_range() {
    assert!(matches!(assemble_list(vec![], Some((MAX_SECS + 1, 0))), Err(SerdeError::Parse(_))));
    assert!(matches!(assemble_list(vec![], Some((0, 1_000_000_000))), Err(SerdeError::Parse(_))));
}

//! The persisted form of a list: a document of item records and the instant
//! of the last change written as RFC 3339 text, together with the errors of
//! loading and dumping it.

use vstd::prelude::*;

use crate::models::{item_views, ItemView, ListView, TodoItem, TodoList};
use crate::timestamp::Timestamp;

verus! {

/// The RFC 3339 text that chrono writes for the instant `secs` seconds and
/// `nanos` nanoseconds after the epoch, in UTC with a `Z` suffix and as many
/// fraction digits as the nanoseconds need; `None` where chrono has no
/// date-time for that instant.
pub uninterp spec fn rfc3339_text(secs: i64, nanos: u32) -> Option<Seq<char>>;

/// The instant, as seconds and nanoseconds after the epoch, that chrono
/// reads from `text` as a date-time with an offset; `None` where it reads
/// none.
pub uninterp spec fn parsed_instant(text: Seq<char>) -> Option<(i64, u32)>;

/// Relies on chrono::DateTime::to_rfc3339_opts (with `SecondsFormat::AutoSi`
/// and `Z` for UTC), applied to what `DateTime::from_timestamp` makes of the
/// two parts; this is the text that chrono's own serializer writes.
/// `from_timestamp` returns `None` only for seconds out of chrono's range or
/// an invalid nanosecond part.
#[verifier::external_body]
fn format_instant(secs: i64, nanos: u32) -> (r: Option<String>)
    ensures
        (Timestamp { secs, nanos }).wf() ==> r is Some,
        match r {
            Some(t) => rfc3339_text(secs, nanos) == Some(t@),
            None => rfc3339_text(secs, nanos) is None,
        },
{
    chrono::DateTime::from_timestamp(secs, nanos).map(
        |d| d.to_rfc3339_opts(chrono::SecondsFormat::AutoSi, true),
    )
}

/// Relies on chrono's `FromStr` for `DateTime<Utc>` (the reading that
/// chrono's own deserializer does), with the result taken apart by
/// `DateTime::timestamp` and `DateTime::timestamp_subsec_nanos`. A
/// `DateTime<Utc>` lies within chrono's range, and its nanoseconds reach one
/// second only on a leap second, which chrono puts at second 59 of a minute.
#[verifier::external_body]
fn parse_instant(text: &str) -> (r: Option<(i64, u32)>)
    ensures
        r == parsed_instant(text@),
        r matches Some(p) ==> (Timestamp { secs: p.0, nanos: p.1 }).wf(),
{
    text.parse::<chrono::DateTime<chrono::Utc>>().ok().map(
        |d| (d.timestamp(), d.timestamp_subsec_nanos()),
    )
}

/// The kind of a failed read or write of the file.
#[derive(Clone, Copy, Debug, PartialEq, Eq, Structural)]
pub enum IoErrorKind {
    /// The file does not exist.
    NotFound,
    /// Any other failure of the storage.
    Other,
}

/// An error while loading or dumping a list.
#[derive(Debug)]
pub enum SerdeError {
    /// The file could not be read or written.
    IO(IoErrorKind, String),
    /// The file's contents are not a list.
    Parse(String),
    /// The list could not be written as a document.
    Format(String),
}

impl SerdeError {
    /// The short description of this error's kind.
    pub fn message(&self) -> (r: String)
        ensures
            self is IO ==> r@ == "failed to read or write given file"@,
            self is Parse ==> r@ == "failed to parse file contents"@,
            self is Format ==> r@ == "failed to serialize todo list"@,
    {
        match self {
            SerdeError::IO(..) => "failed to read or write given file".to_string(),
            SerdeError::Parse(..) => "failed to parse file contents".to_string(),
            SerdeError::Format(..) => "failed to serialize todo list".to_string(),
        }
    }
}

/// What a document holds, as mathematical values.
pub struct DocumentView {
    pub items: Seq<ItemView>,
    pub last_updated: Seq<char>,
}

/// The persisted document of a list: its item records, in order, and the
/// instant of its last change as text.
#[derive(Debug)]
pub struct StoredList {
    pub items: Vec<TodoItem>,
    pub last_updated: String,
}

impl View for StoredList {
    type V = DocumentView;

    open spec fn view(&self) -> DocumentView {
        DocumentView { items: item_views(self.items@), last_updated: self.last_updated@ }
    }
}

/// The document that a list is dumped as, if its instant can be written.
pub open spec fn document_of(list: ListView) -> Option<DocumentView> {
    match rfc3339_text(list.last_updated.secs, list.last_updated.nanos) {
        Some(text) => Some(DocumentView { items: list.items, last_updated: text }),
        None => None,
    }
}

/// The list that a document is loaded as, if its instant can be read.
pub open spec fn list_of(doc: DocumentView) -> Option<ListView> {
    match parsed_instant(doc.last_updated) {
        Some(p) => Some(ListView { items: doc.items, last_updated: Timestamp { secs: p.0, nanos: p.1 } }),
        None => None,
    }
}

/// Copies of the given items, in order.
fn copy_items(items: &[TodoItem]) -> (r: Vec<TodoItem>)
    ensures
        item_views(r@) == item_views(items@),
{
    let mut out: Vec<TodoItem> = Vec::new();
    let mut i: usize = 0;
    while i < items.len()
        invariant
            i <= items@.len(),
            item_views(out@) == item_views(items@.take(i as int)),
        decreases items@.len() - i,
    {
        out.push(items[i].duplicate());
        proof {
            assert(item_views(items@.take(i + 1)) =~= item_views(items@.take(i as int)).push(
                items@[i as int]@,
            ));
            assert(item_views(out@) =~= item_views(items@.take(i as int)).push(items@[i as int]@));
        }
        i = i + 1;
    }
    proof {
        assert(items@.take(items@.len() as int) =~= items@);
    }
    out
}

/// Builds the document of a list from its items and the text of its instant,
/// as chrono wrote it (`None`: chrono could not write it).
pub fn assemble_document(items: Vec<TodoItem>, instant_text: Option<String>) -> (r: Result<StoredList, SerdeError>)
    ensures
        r is Ok <==> instant_text is Some,
        r matches Ok(d) ==> d@.items == item_views(items@) && d@.last_updated == instant_text->0@,
        r matches Err(e) ==> e is Format,
{
    match instant_text {
        Some(text) => Ok(StoredList { items, last_updated: text }),
        None => Err(SerdeError::Format("instant out of the range of dates".to_string())),
    }
}

/// Builds a list from its items and the instant read from its document
/// (`None`: the text was not an instant). An instant that chrono has no
/// date-time for is not taken either.
pub fn assemble_list(items: Vec<TodoItem>, instant: Option<(i64, u32)>) -> (r: Result<TodoList, SerdeError>)
    ensures
        r is Ok <==> (instant matches Some(p) && (Timestamp { secs: p.0, nanos: p.1 }).wf()),
        r matches Ok(l) ==> instant matches Some(p) && l@.items == item_views(items@)
            && l@.last_updated == (Timestamp { secs: p.0, nanos: p.1 }),
        r matches Err(e) ==> e is Parse,
{
    match instant {
        Some((secs, nanos)) => {
            let stamp = Timestamp::new(secs, nanos);
            if stamp.is_valid() {
                Ok(TodoList::with_items(items, stamp))
            } else {
                Err(SerdeError::Parse("last_updated is out of the range of dates".to_string()))
            }
        },
        None => Err(SerdeError::Parse("last_updated is not an RFC 3339 date-time".to_string())),
    }
}

/// Dumps `todo_list` as its document. This never fails: every list's
/// instant has a date-time.
pub fn dump_todo_list(todo_list: &TodoList) -> (r: Result<StoredList, SerdeError>)
    ensures
        r is Ok,
        r matches Ok(d) ==> document_of(todo_list@) == Some(d@),
{
    let stamp = todo_list.last_updated();
    let text = format_instant(stamp.secs, stamp.nanos);
    let items = copy_items(todo_list.iter());
    assemble_document(items, text)
}

/// Loads a list from its document.
///
/// Fails with `SerdeError::Parse` exactly when the instant's text is not a
/// date-time.
pub fn load_todo_list(stored: StoredList) -> (r: Result<TodoList, SerdeError>)
    ensures
        r is Ok <==> list_of(stored@) is Some,
        r matches Ok(l) ==> list_of(stored@) == Some(l@),
        r matches Err(e) ==> e is Parse,
{
    let instant = parse_instant(stored.last_updated.as_str());
    assemble_list(stored.items, instant)
}

/// What to start from after a load: a missing file stands for an empty list
/// (stamped now); a loaded list, or any other error, is handed on.
pub fn or_empty_if_missing(loaded: Result<TodoList, SerdeError>) -> (r: Result<TodoList, SerdeError>)
    ensures
        loaded matches Err(SerdeError::IO(IoErrorKind::NotFound, _)) ==> r matches Ok(l) && l@.items.len() == 0,
        !(loaded matches Err(SerdeError::IO(IoErrorKind::NotFound, _))) ==> r == loaded,
{
    match loaded {
        Err(SerdeError::IO(IoErrorKind::NotFound, _)) => Ok(TodoList::default()),
        other => other,
    }
}

/// Dumping and then loading a list gives back its items, in order, with
/// their descriptions and completion flags; and the whole list, instant
/// included, wherever the text chrono writes for the instant reads back as
/// that instant. (`dump_todo_list` shows that every list has a document.)
pub proof fn lemma_round_trip(list: ListView)
    requires
        document_of(list) is Some,
    ensures
        list_of(document_of(list)->0) is Some ==> list_of(document_of(list)->0)->0.items == list.items,
        parsed_instant(document_of(list)->0.last_updated) == Some((list.last_updated.secs, list.last_updated.nanos))
            ==> list_of(document_of(list)->0) == Some(list),
{
}

} // verus!

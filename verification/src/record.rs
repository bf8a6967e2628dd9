//! Record identifiers: a table name and a key within that table.

use vstd::prelude::*;

verus! {

/// The key of a record within its table.
#[derive(Debug)]
pub enum RecordKey {
    Number(i64),
    Text(String),
}

/// The mathematical value of a `RecordKey`.
pub enum RecordKeyView {
    Number(i64),
    Text(Seq<char>),
}

impl View for RecordKey {
    type V = RecordKeyView;

    open spec fn view(&self) -> RecordKeyView {
        match self {
            RecordKey::Number(n) => RecordKeyView::Number(*n),
            RecordKey::Text(s) => RecordKeyView::Text(s@),
        }
    }
}

/// The text that the database's display of a record key gives for `key`:
/// a number is written in decimal, a text key is escaped where it is not a
/// plain identifier.
pub uninterp spec fn record_key_display(key: RecordKeyView) -> Seq<char>;

/// Calls `surrealdb::sql::Id`'s `Display` (`to_string`) on the key.
/// Trusted: the text is the named result `record_key_display` of the key,
/// which depends on the key alone.
#[verifier::external_body]
fn display_record_key(key: &RecordKey) -> (text: String)
    ensures
        text@ == record_key_display(key@),
{
    let id = match key {
        RecordKey::Number(n) => surrealdb::sql::Id::Number(*n),
        RecordKey::Text(s) => surrealdb::sql::Id::String(s.clone()),
    };
    id.to_string()
}

/// A record identifier: the table `tb` and the key `id` within it.
#[derive(Debug)]
pub struct RecordId {
    pub tb: String,
    pub id: RecordKey,
}

impl RecordId {
    /// The identifier of the record `key` in `table`, with a text key.
    pub fn from_text(table: &str, key: &str) -> (r: RecordId)
        ensures
            r.tb@ == table@,
            r.id@ == RecordKeyView::Text(key@),
    {
        RecordId { tb: table.to_string(), id: RecordKey::Text(key.to_string()) }
    }

    /// The text of this record's key, as the database displays it.
    pub fn key_text(&self) -> (text: String)
        ensures
            text@ == record_key_display(self.id@),
    {
        display_record_key(&self.id)
    }

    /// A copy of this identifier.
    pub fn copy(&self) -> (r: RecordId)
        ensures
            r.tb@ == self.tb@,
            r.id@ == self.id@,
    {
        let id = match &self.id {
            RecordKey::Number(n) => RecordKey::Number(*n),
            RecordKey::Text(s) => RecordKey::Text(s.clone()),
        };
        RecordId { tb: self.tb.clone(), id }
    }
}

} // verus!

//! Table-storage records: the tables that documents are kept in.

use vstd::prelude::*;
use crate::record::{RecordId, RecordKeyView};

verus! {

/// A table-storage record: its record id (none before it is stored), the
/// table's name and its type.
#[derive(Debug)]
pub struct TablesFieldStore {
    pub id: Option<RecordId>,
    pub name: String,
    pub table_type: String,
}

/// The model of a `TablesFieldStore`.
pub struct TablesFieldStoreView {
    pub id: Option<(Seq<char>, RecordKeyView)>,
    pub name: Seq<char>,
    pub table_type: Seq<char>,
}

impl View for TablesFieldStore {
    type V = TablesFieldStoreView;

    open spec fn view(&self) -> TablesFieldStoreView {
        TablesFieldStoreView {
            id: match self.id {
                Some(r) => Some((r.tb@, r.id@)),
                None => None,
            },
            name: self.name@,
            table_type: self.table_type@,
        }
    }
}

impl TablesFieldStore {
    /// The record that registers a new table storage named `name`: no id
    /// yet and an empty type.
    pub fn named(name: &str) -> (r: TablesFieldStore)
        ensures
            r@ == (TablesFieldStoreView { id: None, name: name@, table_type: Seq::empty() }),
    {
        let r = TablesFieldStore { id: None, name: name.to_string(), table_type: String::new() };
        assert(r@.table_type =~= Seq::<char>::empty());
        r
    }
}

} // verus!

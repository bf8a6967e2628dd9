//! Block documents: a named list of blocks with a log of the changes made
//! to the blocks' data.

use vstd::prelude::*;
use crate::clock::{Timestamp, utc_now, epoch_millis};
use crate::record::{RecordId, RecordKeyView};
use crate::value::{BlockData, ValueView};

verus! {

broadcast use vstd::std_specs::vec::group_vec_axioms;

/// The editor version that new documents are stamped with.
pub const DOCUMENT_VERSION: &'static str = "2.22.2";

/// One block of a document: its id, its type and its data.
#[derive(Debug)]
pub struct Block {
    pub id: String,
    pub block_type: String,
    pub data: BlockData,
}

/// The model of a `Block`.
#[verifier::ext_equal]
pub struct BlockView {
    pub id: Seq<char>,
    pub block_type: Seq<char>,
    pub data: Map<Seq<char>, ValueView>,
}

impl View for Block {
    type V = BlockView;

    open spec fn view(&self) -> BlockView {
        BlockView { id: self.id@, block_type: self.block_type@, data: self.data@ }
    }
}

/// A record of one update of a block's data: which block, when, and the
/// data before and after.
#[derive(Debug)]
pub struct Change {
    pub block_id: String,
    pub timestamp: Timestamp,
    pub old_data: BlockData,
    pub new_data: BlockData,
}

/// The model of a `Change`.
#[verifier::ext_equal]
pub struct ChangeView {
    pub block_id: Seq<char>,
    pub timestamp: Timestamp,
    pub old_data: Map<Seq<char>, ValueView>,
    pub new_data: Map<Seq<char>, ValueView>,
}

impl View for Change {
    type V = ChangeView;

    open spec fn view(&self) -> ChangeView {
        ChangeView {
            block_id: self.block_id@,
            timestamp: self.timestamp,
            old_data: self.old_data@,
            new_data: self.new_data@,
        }
    }
}

/// The content of a document: its time stamp in milliseconds, its blocks
/// and its editor version.
#[derive(Debug)]
pub struct BlockDocumentContent {
    pub time: i64,
    pub blocks: Vec<Block>,
    pub version: String,
}

/// A document of blocks, with the record id that the database gave it
/// (none before it is stored) and the log of its changes.
#[derive(Debug)]
pub struct BlockDocument {
    pub id: Option<RecordId>,
    pub name: String,
    pub content: BlockDocumentContent,
    pub changes: Vec<Change>,
}

/// The model of a `BlockDocument`.
#[verifier::ext_equal]
pub struct DocumentView {
    pub id: Option<(Seq<char>, RecordKeyView)>,
    pub name: Seq<char>,
    pub time: i64,
    pub blocks: Seq<BlockView>,
    pub version: Seq<char>,
    pub changes: Seq<ChangeView>,
}

impl View for BlockDocument {
    type V = DocumentView;

    open spec fn view(&self) -> DocumentView {
        DocumentView {
            id: match self.id {
                Some(r) => Some((r.tb@, r.id@)),
                None => None,
            },
            name: self.name@,
            time: self.content.time,
            blocks: self.content.blocks@.map_values(|b: Block| b@),
            version: self.content.version@,
            changes: self.changes@.map_values(|c: Change| c@),
        }
    }
}

/// `i` is the position of the first block of `blocks` whose id is `id`.
pub open spec fn is_first_block(blocks: Seq<BlockView>, id: Seq<char>, i: int) -> bool {
    &&& 0 <= i < blocks.len()
    &&& blocks[i].id == id
    &&& forall|j: int| 0 <= j < i ==> blocks[j].id != id
}

/// Two positions that are both the first with `id` are the same.
pub proof fn lemma_first_block_unique(blocks: Seq<BlockView>, id: Seq<char>, i: int, j: int)
    requires
        is_first_block(blocks, id, i),
        is_first_block(blocks, id, j),
    ensures
        i == j,
{
}

/// Where some block has `id`, a first such block exists.
pub proof fn lemma_first_block_exists(blocks: Seq<BlockView>, id: Seq<char>, k: int)
    requires
        0 <= k < blocks.len(),
        blocks[k].id == id,
    ensures
        exists|i: int| is_first_block(blocks, id, i),
    decreases k,
{
    if exists|j: int| 0 <= j < k && blocks[j].id == id {
        let j = choose|j: int| 0 <= j < k && blocks[j].id == id;
        lemma_first_block_exists(blocks, id, j);
    } else {
        assert(is_first_block(blocks, id, k));
    }
}

impl DocumentView {
    /// A new document named `name`, stamped with `time`: no id, no block,
    /// no change, and the editor version of new documents.
    pub open spec fn fresh(name: Seq<char>, time: i64) -> DocumentView {
        DocumentView {
            id: None,
            name,
            time,
            blocks: Seq::empty(),
            version: DOCUMENT_VERSION@,
            changes: Seq::empty(),
        }
    }

    /// This document with `block` appended to its blocks.
    pub open spec fn with_block(self, block: BlockView) -> DocumentView {
        DocumentView { blocks: self.blocks.push(block), ..self }
    }

    /// Some block of this document has the id `id`.
    pub open spec fn has_block(self, id: Seq<char>) -> bool {
        exists|i: int| 0 <= i < self.blocks.len() && self.blocks[i].id == id
    }

    /// The position of the first block with the id `id` (meaningful where
    /// `has_block(id)`).
    pub open spec fn first_block(self, id: Seq<char>) -> int {
        choose|i: int| is_first_block(self.blocks, id, i)
    }

    /// This document after the first block with the id `id` gets the data
    /// `data` at time `at`: that block keeps its id and type, and a change
    /// with its data before and after is appended to the log. Meaningful
    /// where `has_block(id)`.
    pub open spec fn updated(
        self,
        id: Seq<char>,
        data: Map<Seq<char>, ValueView>,
        at: Timestamp,
    ) -> DocumentView {
        let i = self.first_block(id);
        let b = self.blocks[i];
        DocumentView {
            blocks: self.blocks.update(i, BlockView { data, ..b }),
            changes: self.changes.push(
                ChangeView { block_id: id, timestamp: at, old_data: b.data, new_data: data },
            ),
            ..self
        }
    }
}

/// `c` is a lowercase hexadecimal digit.
pub open spec fn is_lower_hex(c: char) -> bool {
    ('0' <= c && c <= '9') || ('a' <= c && c <= 'f')
}

/// `s` is a version-4 UUID in hyphenated lowercase form, between single
/// quotes: `'xxxxxxxx-xxxx-4xxx-xxxx-xxxxxxxxxxxx'`.
pub open spec fn is_quoted_v4_uuid(s: Seq<char>) -> bool {
    &&& s.len() == 38
    &&& s[0] == '\'' && s[37] == '\''
    &&& s[9] == '-' && s[14] == '-' && s[19] == '-' && s[24] == '-'
    &&& s[15] == '4'
    &&& forall|i: int|
        1 <= i < 37 && i != 9 && i != 14 && i != 19 && i != 24 ==> is_lower_hex(#[trigger] s[i])
}

/// Calls `surrealdb::sql::Uuid::new_v4()` and its `to_string()`. Trusted:
/// the uuid crate makes a random version-4 UUID and displays it hyphenated
/// in lowercase hex; surrealdb's `Display` for its `Uuid` puts that text
/// between single quotes (`quote_str`, which escapes only backslashes and,
/// within double quotes, double quotes). Which UUID it is, is not stated.
#[verifier::external_body]
fn fresh_block_id() -> (id: String)
    ensures
        is_quoted_v4_uuid(id@),
{
    surrealdb::sql::Uuid::new_v4().to_string()
}

impl BlockDocument {
    /// A new document named `name` and stamped with `time` milliseconds.
    pub fn new_at(name: &str, time: i64) -> (doc: BlockDocument)
        ensures
            doc@ == DocumentView::fresh(name@, time),
    {
        let doc = BlockDocument {
            id: None,
            name: name.to_string(),
            content: BlockDocumentContent {
                time,
                blocks: Vec::new(),
                version: DOCUMENT_VERSION.to_string(),
            },
            changes: Vec::new(),
        };
        assert(doc@ =~= DocumentView::fresh(name@, time));
        doc
    }

    /// A new document named `name`, stamped with the current time in
    /// milliseconds since the Unix epoch.
    pub fn new(name: &str) -> (doc: BlockDocument)
        ensures
            doc@ == DocumentView::fresh(name@, doc@.time),
            doc@.time >= 0,
    {
        let now = utc_now();
        BlockDocument::new_at(name, now.millis())
    }

    /// Appends a block with the id `id`, the type `block_type` and the data
    /// `data`.
    pub fn add_block_with_id(&mut self, id: String, block_type: &str, data: BlockData)
        ensures
            final(self)@ == old(self)@.with_block(
                BlockView { id: id@, block_type: block_type@, data: data@ },
            ),
    {
        let block = Block { id, block_type: block_type.to_string(), data };
        self.content.blocks.push(block);
        assert(self@ =~= old(self)@.with_block(block@));
    }

    /// Appends a block of type `block_type` with the data `data` and a fresh
    /// random id (a quoted version-4 UUID), and returns that id.
    pub fn add_block(&mut self, block_type: &str, data: BlockData) -> (id: String)
        ensures
            is_quoted_v4_uuid(id@),
            final(self)@ == old(self)@.with_block(
                BlockView { id: id@, block_type: block_type@, data: data@ },
            ),
    {
        let id = fresh_block_id();
        let returned = id.clone();
        self.add_block_with_id(id, block_type, data);
        returned
    }

    /// Gives the first block with the id `block_id` the data `new_data` and
    /// logs the change at time `now`. Where no block has that id, the
    /// document is left as it is and the error is "Block not found".
    pub fn update_block_at(&mut self, block_id: &str, new_data: BlockData, now: Timestamp) -> (r:
        Result<(), String>)
        ensures
            match r {
                Ok(()) => {
                    &&& old(self)@.has_block(block_id@)
                    &&& final(self)@ == old(self)@.updated(block_id@, new_data@, now)
                },
                Err(e) => {
                    &&& !old(self)@.has_block(block_id@)
                    &&& e@ == "Block not found"@
                    &&& final(self)@ == old(self)@
                },
            },
    {
        let key = block_id.to_string();
        let ghost blocks0 = old(self)@.blocks;
        let mut i: usize = 0;
        while i < self.content.blocks.len()
            invariant
                i <= self.content.blocks@.len(),
                self@ == old(self)@,
                blocks0 == self@.blocks,
                key@ == block_id@,
                forall|j: int| 0 <= j < i ==> blocks0[j].id != key@,
            ensures
                i <= self.content.blocks@.len(),
                self@ == old(self)@,
                i < self.content.blocks@.len() ==> blocks0[i as int].id == key@,
                forall|j: int| 0 <= j < i ==> blocks0[j].id != key@,
            decreases self.content.blocks@.len() - i,
        {
            if self.content.blocks[i].id == key {
                break;
            }
            i = i + 1;
        }
        if i < self.content.blocks.len() {
            proof {
                assert(is_first_block(blocks0, key@, i as int));
                let f = old(self)@.first_block(key@);
                assert(is_first_block(blocks0, key@, f));
                lemma_first_block_unique(blocks0, key@, i as int, f);
            }
            let stored = new_data.copy();
            let old_block = self.content.blocks.remove(i);
            let Block { id, block_type, data: old_data } = old_block;
            let ghost nb = BlockView { id: id@, block_type: block_type@, data: stored@ };
            self.content.blocks.insert(i, Block { id, block_type, data: stored });
            let change = Change { block_id: key, timestamp: now, old_data, new_data };
            let ghost cv = change@;
            self.changes.push(change);
            proof {
                let expected = old(self)@.updated(block_id@, new_data@, now);
                assert(self@.blocks =~= expected.blocks);
                assert(self@.changes =~= expected.changes);
                assert(self@ =~= expected);
            }
            Ok(())
        } else {
            Err("Block not found".to_string())
        }
    }

    /// Gives the first block with the id `block_id` the data `new_data` and
    /// logs the change at the current time. Where no block has that id, the
    /// document is left as it is and the error is "Block not found".
    pub fn update_block(&mut self, block_id: &str, new_data: BlockData) -> (r: Result<(), String>)
        ensures
            match r {
                Ok(()) => {
                    &&& old(self)@.has_block(block_id@)
                    &&& final(self)@ == old(self)@.updated(
                        block_id@,
                        new_data@,
                        final(self)@.changes.last().timestamp,
                    )
                    &&& 0 <= final(self)@.changes.last().timestamp.secs <= 8_300_000_000_000
                    &&& final(self)@.changes.last().timestamp.nanos < 1_000_000_000
                },
                Err(e) => {
                    &&& !old(self)@.has_block(block_id@)
                    &&& e@ == "Block not found"@
                    &&& final(self)@ == old(self)@
                },
            },
    {
        let now = utc_now();
        self.update_block_at(block_id, new_data, now)
    }
}

/// A read after a write: after the block with the id `id` is updated with
/// `data`, the first block with that id holds `data`, and the other blocks
/// are as they were.
pub proof fn lemma_update_then_read(
    doc: DocumentView,
    id: Seq<char>,
    data: Map<Seq<char>, ValueView>,
    at: Timestamp,
)
    requires
        doc.has_block(id),
    ensures
        is_first_block(doc.blocks, id, doc.first_block(id)),
        doc.updated(id, data, at).has_block(id),
        doc.updated(id, data, at).first_block(id) == doc.first_block(id),
        doc.updated(id, data, at).blocks[doc.first_block(id)].data == data,
        doc.updated(id, data, at).blocks.len() == doc.blocks.len(),
        forall|j: int|
            0 <= j < doc.blocks.len() && j != doc.first_block(id) ==> #[trigger] doc.updated(
                id,
                data,
                at,
            ).blocks[j] == doc.blocks[j],
{
    let k = choose|k: int| 0 <= k < doc.blocks.len() && doc.blocks[k].id == id;
    lemma_first_block_exists(doc.blocks, id, k);
    let i = doc.first_block(id);
    let d2 = doc.updated(id, data, at);
    assert(is_first_block(d2.blocks, id, i));
    lemma_first_block_unique(d2.blocks, id, i, d2.first_block(id));
}

/// The change log undoes: updating a block and then updating it again
/// with the old data that the log recorded gives back the blocks from
/// before the first update.
pub proof fn lemma_update_undone_by_log(
    doc: DocumentView,
    id: Seq<char>,
    data: Map<Seq<char>, ValueView>,
    at: Timestamp,
    later: Timestamp,
)
    requires
        doc.has_block(id),
    ensures
        doc.updated(id, data, at).changes.last().old_data == doc.blocks[doc.first_block(id)].data,
        doc.updated(id, data, at).updated(
            id,
            doc.updated(id, data, at).changes.last().old_data,
            later,
        ).blocks == doc.blocks,
{
    lemma_update_then_read(doc, id, data, at);
    let d2 = doc.updated(id, data, at);
    let i = doc.first_block(id);
    let d3 = d2.updated(id, d2.changes.last().old_data, later);
    assert(d2.first_block(id) == i);
    assert(d3.blocks[i] =~= doc.blocks[i]);
    assert forall|j: int| 0 <= j < doc.blocks.len() implies d3.blocks[j] == doc.blocks[j] by {
        if j != i {
            assert(d2.blocks[j] == doc.blocks[j]);
        }
    }
    assert(d3.blocks =~= doc.blocks);
}

/// Each update appends exactly one change to the log and keeps the earlier
/// ones; an update of a block that is not there changes nothing (see
/// `update_block_at`).
pub proof fn lemma_update_appends_one_change(
    doc: DocumentView,
    id: Seq<char>,
    data: Map<Seq<char>, ValueView>,
    at: Timestamp,
)
    requires
        doc.has_block(id),
    ensures
        doc.updated(id, data, at).changes.len() == doc.changes.len() + 1,
        doc.updated(id, data, at).changes.drop_last() == doc.changes,
        doc.updated(id, data, at).changes.last() == (ChangeView {
            block_id: id,
            timestamp: at,
            old_data: doc.blocks[doc.first_block(id)].data,
            new_data: data,
        }),
{
    assert(doc.updated(id, data, at).changes.drop_last() =~= doc.changes);
}

/// A block that was added can be found and updated by its id.
pub proof fn lemma_added_block_found(doc: DocumentView, block: BlockView)
    ensures
        doc.with_block(block).has_block(block.id),
{
    let d2 = doc.with_block(block);
    assert(d2.blocks[doc.blocks.len() as int].id == block.id);
}

// ---- the change log over a series of edits ----

/// No two blocks have the same id.
pub open spec fn distinct_block_ids(blocks: Seq<BlockView>) -> bool {
    forall|i: int, j: int| 0 <= i < j < blocks.len() ==> blocks[i].id != blocks[j].id
}

/// `k` is the last change in `changes` to the block `id`.
pub open spec fn is_last_change_for(changes: Seq<ChangeView>, id: Seq<char>, k: int) -> bool {
    &&& 0 <= k < changes.len()
    &&& changes[k].block_id == id
    &&& forall|m: int| k < m < changes.len() ==> changes[m].block_id != id
}

/// `m` is the next change after `k` to the same block.
pub open spec fn is_next_change(changes: Seq<ChangeView>, k: int, m: int) -> bool {
    &&& 0 <= k < m < changes.len()
    &&& changes[m].block_id == changes[k].block_id
    &&& forall|p: int| k < p < m ==> changes[p].block_id != changes[k].block_id
}

impl DocumentView {
    /// The change log agrees with the blocks: block ids are distinct, every
    /// change names a block of the document, the last change to a block
    /// left the data that the block holds, and each change to a block starts
    /// from the data that the previous change to it left.
    pub open spec fn log_consistent(self) -> bool {
        &&& distinct_block_ids(self.blocks)
        &&& forall|k: int| 0 <= k < self.changes.len() ==> self.has_block(#[trigger] self.changes[k].block_id)
        &&& forall|i: int, k: int|
            0 <= i < self.blocks.len() && #[trigger] is_last_change_for(self.changes, self.blocks[i].id, k)
                ==> self.changes[k].new_data == self.blocks[i].data
        &&& forall|k: int, m: int|
            #[trigger] is_next_change(self.changes, k, m) ==> self.changes[m].old_data
                == self.changes[k].new_data
    }
}

/// An edit of a document, as `add_block` and `update_block` make them.
pub enum DocumentEdit {
    AddBlock(BlockView),
    UpdateBlock(Seq<char>, Map<Seq<char>, ValueView>, Timestamp),
}

/// The document after `edit`: an added block is appended; an update of a
/// block that is not there leaves the document as it is.
pub open spec fn apply_edit(doc: DocumentView, edit: DocumentEdit) -> DocumentView {
    match edit {
        DocumentEdit::AddBlock(b) => doc.with_block(b),
        DocumentEdit::UpdateBlock(id, data, at) => if doc.has_block(id) {
            doc.updated(id, data, at)
        } else {
            doc
        },
    }
}

/// The document after the edits, in order.
pub open spec fn apply_edits(doc: DocumentView, edits: Seq<DocumentEdit>) -> DocumentView
    decreases edits.len(),
{
    if edits.len() == 0 {
        doc
    } else {
        apply_edit(apply_edits(doc, edits.drop_last()), edits.last())
    }
}

/// The number of the edits that are updates of a block that is there (the
/// updates that succeed).
pub open spec fn successful_updates(doc: DocumentView, edits: Seq<DocumentEdit>) -> nat
    decreases edits.len(),
{
    if edits.len() == 0 {
        0
    } else {
        let prev = apply_edits(doc, edits.drop_last());
        successful_updates(doc, edits.drop_last()) + match edits.last() {
            DocumentEdit::UpdateBlock(id, _, _) => if prev.has_block(id) {
                1nat
            } else {
                0nat
            },
            DocumentEdit::AddBlock(_) => 0nat,
        }
    }
}

/// A new document's change log agrees with its blocks.
pub proof fn lemma_fresh_log_consistent(name: Seq<char>, time: i64)
    ensures
        DocumentView::fresh(name, time).log_consistent(),
{
}

/// Adding a block with a new id keeps the change log in agreement.
pub proof fn lemma_add_keeps_log(doc: DocumentView, block: BlockView)
    requires
        doc.log_consistent(),
        !doc.has_block(block.id),
    ensures
        doc.with_block(block).log_consistent(),
        doc.with_block(block).changes == doc.changes,
{
    let d2 = doc.with_block(block);
    let n = doc.blocks.len();
    assert forall|k: int| 0 <= k < d2.changes.len() implies d2.has_block(
        #[trigger] d2.changes[k].block_id,
    ) by {
        assert(doc.has_block(doc.changes[k].block_id));
        let j = choose|j: int| 0 <= j < doc.blocks.len() && doc.blocks[j].id == doc.changes[k].block_id;
        assert(d2.blocks[j] == doc.blocks[j]);
    }
    assert forall|i: int, k: int|
        0 <= i < d2.blocks.len() && #[trigger] is_last_change_for(d2.changes, d2.blocks[i].id, k)
        implies d2.changes[k].new_data == d2.blocks[i].data by {
        if i == n {
            assert(doc.has_block(doc.changes[k].block_id));
        } else {
            assert(d2.blocks[i] == doc.blocks[i]);
            assert(is_last_change_for(doc.changes, doc.blocks[i].id, k));
        }
    }
    assert forall|i: int, j: int| 0 <= i < j < d2.blocks.len() implies d2.blocks[i].id
        != d2.blocks[j].id by {
        if j == n {
            assert(doc.blocks[i].id == d2.blocks[i].id);
        }
    }
}

/// Updating a block that is there keeps the change log in agreement and
/// adds one change.
pub proof fn lemma_update_keeps_log(
    doc: DocumentView,
    id: Seq<char>,
    data: Map<Seq<char>, ValueView>,
    at: Timestamp,
)
    requires
        doc.log_consistent(),
        doc.has_block(id),
    ensures
        doc.updated(id, data, at).log_consistent(),
        doc.updated(id, data, at).changes.len() == doc.changes.len() + 1,
{
    lemma_update_then_read(doc, id, data, at);
    let d2 = doc.updated(id, data, at);
    let i = doc.first_block(id);
    let n = doc.changes.len() as int;
    assert forall|j: int| 0 <= j < d2.blocks.len() implies #[trigger] d2.blocks[j].id
        == doc.blocks[j].id by {
        if j != i {
            assert(d2.blocks[j] == doc.blocks[j]);
        }
    }
    assert(distinct_block_ids(d2.blocks)) by {
        assert forall|a: int, b: int| 0 <= a < b < d2.blocks.len() implies d2.blocks[a].id
            != d2.blocks[b].id by {
            assert(d2.blocks[a].id == doc.blocks[a].id);
            assert(d2.blocks[b].id == doc.blocks[b].id);
        }
    }
    assert forall|k: int| 0 <= k < d2.changes.len() implies d2.has_block(
        #[trigger] d2.changes[k].block_id,
    ) by {
        if k == n {
            assert(d2.blocks[i].id == id);
        } else {
            assert(d2.changes[k] == doc.changes[k]);
            assert(doc.has_block(doc.changes[k].block_id));
            let j = choose|j: int| 0 <= j < doc.blocks.len() && doc.blocks[j].id == doc.changes[k].block_id;
            assert(d2.blocks[j].id == doc.blocks[j].id);
        }
    }
    assert forall|j: int, k: int|
        0 <= j < d2.blocks.len() && #[trigger] is_last_change_for(d2.changes, d2.blocks[j].id, k)
        implies d2.changes[k].new_data == d2.blocks[j].data by {
        assert(d2.blocks[j].id == doc.blocks[j].id);
        if j == i {
            if k < n {
                assert(d2.changes[n].block_id == id);
            }
        } else {
            assert(doc.blocks[j].id != id) by {
                if j < i {
                    assert(doc.blocks[j].id != doc.blocks[i].id);
                } else {
                    assert(doc.blocks[i].id != doc.blocks[j].id);
                }
            }
            assert(k != n);
            assert(d2.blocks[j] == doc.blocks[j]);
            assert forall|m: int| k < m < doc.changes.len() implies doc.changes[m].block_id
                != doc.blocks[j].id by {
                assert(d2.changes[m] == doc.changes[m]);
            }
            assert(d2.changes[k] == doc.changes[k]);
            assert(is_last_change_for(doc.changes, doc.blocks[j].id, k));
        }
    }
    assert forall|k: int, m: int| #[trigger] is_next_change(d2.changes, k, m) implies d2.changes[m].old_data
        == d2.changes[k].new_data by {
        assert(d2.changes[k] == doc.changes[k]);
        if m < n {
            assert(d2.changes[m] == doc.changes[m]);
            assert forall|p: int| k < p < m implies doc.changes[p].block_id != doc.changes[k].block_id by {
                assert(d2.changes[p] == doc.changes[p]);
            }
            assert(is_next_change(doc.changes, k, m));
        } else {
            assert forall|p: int| k < p < doc.changes.len() implies doc.changes[p].block_id
                != doc.blocks[i].id by {
                assert(d2.changes[p] == doc.changes[p]);
            }
            assert(is_last_change_for(doc.changes, doc.blocks[i].id, k));
        }
    }
}

/// The change log over any series of edits: starting from a document whose
/// log agrees with its blocks, after any series of added blocks and
/// updates that leaves the block ids distinct, the log still agrees with
/// the blocks (every change names a block, the last change to a block left
/// its data, each change to a block starts from the data that the previous
/// one left), and it has grown by exactly one change per update that
/// succeeded.
pub proof fn lemma_edits_keep_log(doc: DocumentView, edits: Seq<DocumentEdit>)
    requires
        doc.log_consistent(),
        distinct_block_ids(apply_edits(doc, edits).blocks),
    ensures
        apply_edits(doc, edits).log_consistent(),
        apply_edits(doc, edits).changes.len() == doc.changes.len() + successful_updates(doc, edits),
    decreases edits.len(),
{
    if edits.len() > 0 {
        let pre = edits.drop_last();
        let prev = apply_edits(doc, pre);
        let last = edits.last();
        let fin = apply_edits(doc, edits);
        assert(fin == apply_edit(prev, last));
        match last {
            DocumentEdit::AddBlock(b) => {
                assert(fin.blocks == prev.blocks.push(b));
                assert(distinct_block_ids(prev.blocks)) by {
                    assert forall|i: int, j: int| 0 <= i < j < prev.blocks.len() implies prev.blocks[i].id
                        != prev.blocks[j].id by {
                        assert(fin.blocks[i] == prev.blocks[i]);
                        assert(fin.blocks[j] == prev.blocks[j]);
                    }
                }
                lemma_edits_keep_log(doc, pre);
                assert(!prev.has_block(b.id)) by {
                    if prev.has_block(b.id) {
                        let j = choose|j: int| 0 <= j < prev.blocks.len() && prev.blocks[j].id == b.id;
                        assert(fin.blocks[j] == prev.blocks[j]);
                        assert(fin.blocks[prev.blocks.len() as int] == b);
                    }
                }
                lemma_add_keeps_log(prev, b);
            },
            DocumentEdit::UpdateBlock(id, data, at) => {
                if prev.has_block(id) {
                    lemma_update_then_read(prev, id, data, at);
                    let i = prev.first_block(id);
                    assert(distinct_block_ids(prev.blocks)) by {
                        assert forall|a: int, c: int| 0 <= a < c < prev.blocks.len() implies prev.blocks[a].id
                            != prev.blocks[c].id by {
                            assert(fin.blocks[a].id == prev.blocks[a].id) by {
                                if a != i {
                                    assert(fin.blocks[a] == prev.blocks[a]);
                                }
                            }
                            assert(fin.blocks[c].id == prev.blocks[c].id) by {
                                if c != i {
                                    assert(fin.blocks[c] == prev.blocks[c]);
                                }
                            }
                        }
                    }
                    lemma_edits_keep_log(doc, pre);
                    lemma_update_keeps_log(prev, id, data, at);
                } else {
                    lemma_edits_keep_log(doc, pre);
                }
            },
        }
    }
}

/// From a new document: after any series of edits that leaves the block
/// ids distinct, the change log agrees with the blocks and holds exactly
/// one change per update that succeeded.
pub proof fn lemma_new_document_log(name: Seq<char>, time: i64, edits: Seq<DocumentEdit>)
    requires
        distinct_block_ids(apply_edits(DocumentView::fresh(name, time), edits).blocks),
    ensures
        apply_edits(DocumentView::fresh(name, time), edits).log_consistent(),
        apply_edits(DocumentView::fresh(name, time), edits).changes.len() == successful_updates(
            DocumentView::fresh(name, time),
            edits,
        ),
{
    lemma_fresh_log_consistent(name, time);
    lemma_edits_keep_log(DocumentView::fresh(name, time), edits);
}

} // verus!

//! The decisions of the service's request handlers. A handler that talks to
//! the database several times is a state machine: it is started with the
//! request, asks for one database operation at a time (an action), and is
//! stepped with what the database answered (an event) until it replies.

use vstd::prelude::*;
use crate::document::{BlockDocument, BlockView, DocumentView, is_quoted_v4_uuid};
use crate::error::AppError;
use crate::record::{RecordId, RecordKey, RecordKeyView, record_key_display};
use crate::tables::TablesFieldStore;
use crate::value::{BlockData, BlockValue, ValueView, lemma_model_shallow};

verus! {

/// The field of a new document that names its table storage.
pub const TABLE_STORAGE_FIELD: &'static str = "table_storage_id";

/// The type of a block that refers to a component template.
pub const COMPONENT_BLOCK_TYPE: &'static str = "custom_template";

/// The field of such a block that names the template.
pub const COMPONENT_FIELD: &'static str = "component_template_id";

/// The table of component templates.
pub const COMPONENT_TABLE: &'static str = "components";

/// The message of the error when the document to extend is not there.
pub const DOCUMENT_NOT_FOUND: &'static str = "Document not found";

/// `e` is the internal error that answers the failure `cause`.
pub open spec fn answers_with_internal(e: AppError, cause: AppError) -> bool {
    &&& e is InternalError
    &&& e->InternalError_0@ == cause.text_spec()
}

/// A handler's result: a failed step is answered with an internal error
/// whose message is the failure's text.
pub fn handler_result<T>(r: Result<T, AppError>) -> (out: Result<T, AppError>)
    ensures
        match r {
            Ok(v) => out == Ok::<T, AppError>(v),
            Err(e) => out is Err && answers_with_internal(out->Err_0, e),
        },
{
    match r {
        Ok(v) => Ok(v),
        Err(e) => Err(e.into_internal()),
    }
}

// ---- creating a block document ----

/// Where creating a block document stands.
pub enum CreateBlockState {
    /// The document was sent to be created in the table `db_name`.
    AwaitingDocument { db_name: String },
    /// The document was created with the record id `record`; the table
    /// storage named after its table was asked for.
    AwaitingTables { db_name: String, document: BlockDocument, record: RecordId },
    /// The table storage was merged into the stored document.
    AwaitingMerge { document: BlockDocument },
    Finished,
}

/// What the database answered.
pub enum CreateBlockEvent {
    DocumentCreated(Result<BlockDocument, AppError>),
    TablesFound(Result<Vec<TablesFieldStore>, AppError>),
    Merged(Result<(), AppError>),
}

/// What the handler asks for next.
pub enum CreateBlockAction {
    /// Create `document` in the table `table`.
    CreateDocument { table: String, document: BlockDocument },
    /// Find the table storages named `name`.
    FindTable { name: String },
    /// Merge `patch` into the record `record` of the table `table`.
    MergeDocument { table: String, record: String, patch: BlockValue },
    /// Answer the request.
    Reply(Result<BlockDocument, AppError>),
}

/// The patch that links a new document to the table storage `table`: one
/// field that refers to that record.
pub open spec fn table_storage_patch(table: (Seq<char>, RecordKeyView)) -> ValueView {
    ValueView::Object(
        Map::empty().insert(TABLE_STORAGE_FIELD@, ValueView::Thing(table.0, table.1)),
    )
}

/// `event` is an answer to what `state` waits for. A found table list must
/// have a first table with an id (the handler takes that id, which must be
/// there).
pub open spec fn create_block_accepts(state: CreateBlockState, event: CreateBlockEvent) -> bool {
    match state {
        CreateBlockState::AwaitingDocument { .. } => event is DocumentCreated,
        CreateBlockState::AwaitingTables { .. } => match event {
            CreateBlockEvent::TablesFound(Ok(tables)) => tables@.len() > 0 && tables@[0].id is Some,
            CreateBlockEvent::TablesFound(Err(_)) => true,
            _ => false,
        },
        CreateBlockState::AwaitingMerge { .. } => event is Merged,
        CreateBlockState::Finished => false,
    }
}

/// Starts creating a document named `doc_name` in the table `db_name`: a
/// new document (stamped with the current time) is sent to be created.
pub fn create_block_start(db_name: String, doc_name: &str) -> (out: (
    CreateBlockState,
    CreateBlockAction,
))
    ensures
        out.0 matches CreateBlockState::AwaitingDocument { db_name: n } && n@ == db_name@,
        out.1 matches CreateBlockAction::CreateDocument { table, document } && table@ == db_name@
            && document@ == DocumentView::fresh(doc_name@, document@.time),
{
    let document = BlockDocument::new(doc_name);
    let table = db_name.clone();
    (CreateBlockState::AwaitingDocument { db_name }, CreateBlockAction::CreateDocument { table, document })
}

/// One step of creating a block document.
///
/// - A failed create is answered with an internal error.
/// - A created document without a record id is answered as it is.
/// - A created document with a record id leads to a lookup of the table
///   storage named after the document's table.
/// - A failed lookup or merge is answered with its own error.
/// - A found table storage is merged into the document as the patch
///   `table_storage_patch` of the first table's record id.
/// - After the merge, the document as it was created is the answer.
pub fn create_block_step(state: CreateBlockState, event: CreateBlockEvent) -> (out: (
    CreateBlockState,
    CreateBlockAction,
))
    requires
        create_block_accepts(state, event),
    ensures
        match state {
            CreateBlockState::AwaitingDocument { db_name } => match event {
                CreateBlockEvent::DocumentCreated(Err(e)) => {
                    &&& out.0 is Finished
                    &&& out.1 matches CreateBlockAction::Reply(Err(x)) && answers_with_internal(x, e)
                },
                CreateBlockEvent::DocumentCreated(Ok(doc)) => match doc.id {
                    Some(rid) => {
                        &&& out.0 matches CreateBlockState::AwaitingTables { db_name: n, document, record }
                            && n@ == db_name@ && document == doc && record.tb@ == rid.tb@
                            && record.id@ == rid.id@
                        &&& out.1 matches CreateBlockAction::FindTable { name } && name@ == rid.tb@
                    },
                    None => {
                        &&& out.0 is Finished
                        &&& out.1 == CreateBlockAction::Reply(Ok(doc))
                    },
                },
                _ => true,
            },
            CreateBlockState::AwaitingTables { db_name, document, record } => match event {
                CreateBlockEvent::TablesFound(Err(e)) => {
                    &&& out.0 is Finished
                    &&& out.1 == CreateBlockAction::Reply(Err(e))
                },
                CreateBlockEvent::TablesFound(Ok(tables)) => {
                    &&& out.0 == CreateBlockState::AwaitingMerge { document }
                    &&& out.1 matches CreateBlockAction::MergeDocument { table, record: key, patch }
                        && table@ == db_name@ && key@ == record_key_display(record.id@)
                        && patch.model() == table_storage_patch(
                        (tables@[0].id->0.tb@, tables@[0].id->0.id@),
                    )
                },
                _ => true,
            },
            CreateBlockState::AwaitingMerge { document } => match event {
                CreateBlockEvent::Merged(Err(e)) => {
                    &&& out.0 is Finished
                    &&& out.1 == CreateBlockAction::Reply(Err(e))
                },
                CreateBlockEvent::Merged(Ok(())) => {
                    &&& out.0 is Finished
                    &&& out.1 == CreateBlockAction::Reply(Ok(document))
                },
                _ => true,
            },
            CreateBlockState::Finished => true,
        },
{
    match state {
        CreateBlockState::AwaitingDocument { db_name } => match event {
            CreateBlockEvent::DocumentCreated(Err(e)) => {
                (CreateBlockState::Finished, CreateBlockAction::Reply(Err(e.into_internal())))
            },
            CreateBlockEvent::DocumentCreated(Ok(doc)) => {
                let found = match &doc.id {
                    Some(rid) => Some((rid.copy(), rid.tb.clone())),
                    None => None,
                };
                match found {
                    Some((record, name)) => (
                        CreateBlockState::AwaitingTables { db_name, document: doc, record },
                        CreateBlockAction::FindTable { name },
                    ),
                    None => (CreateBlockState::Finished, CreateBlockAction::Reply(Ok(doc))),
                }
            },
            _ => vstd::pervasive::unreached(),
        },
        CreateBlockState::AwaitingTables { db_name, document, record } => match event {
            CreateBlockEvent::TablesFound(Err(e)) => {
                (CreateBlockState::Finished, CreateBlockAction::Reply(Err(e)))
            },
            CreateBlockEvent::TablesFound(Ok(tables)) => {
                let table_id = match &tables[0].id {
                    Some(rid) => rid.copy(),
                    None => vstd::pervasive::unreached(),
                };
                let thing = BlockValue::Thing(table_id);
                proof {
                    lemma_model_shallow(thing);
                }
                let mut fields = BlockData::new();
                fields.insert(TABLE_STORAGE_FIELD.to_string(), thing);
                let patch = BlockValue::Object(fields);
                proof {
                    lemma_model_shallow(patch);
                    assert(patch.model() == table_storage_patch(
                        (tables@[0].id->0.tb@, tables@[0].id->0.id@),
                    ));
                }
                let key = record.key_text();
                (
                    CreateBlockState::AwaitingMerge { document },
                    CreateBlockAction::MergeDocument { table: db_name, record: key, patch },
                )
            },
            _ => vstd::pervasive::unreached(),
        },
        CreateBlockState::AwaitingMerge { document } => match event {
            CreateBlockEvent::Merged(Err(e)) => {
                (CreateBlockState::Finished, CreateBlockAction::Reply(Err(e)))
            },
            CreateBlockEvent::Merged(Ok(())) => {
                (CreateBlockState::Finished, CreateBlockAction::Reply(Ok(document)))
            },
            _ => vstd::pervasive::unreached(),
        },
        CreateBlockState::Finished => vstd::pervasive::unreached(),
    }
}

// ---- adding a component block to a document ----

/// Where adding a component block to a document stands.
pub enum ComponentBlockState {
    /// The document `table_id` of the table `table` was asked for; it is to
    /// get a block that refers to the template `component_id`.
    AwaitingDocument { table: String, table_id: String, component_id: String },
    /// The extended document was sent to be stored.
    AwaitingUpdate,
    Finished,
}

/// What the database answered.
pub enum ComponentBlockEvent {
    DocumentFetched(Result<Option<BlockDocument>, AppError>),
    DocumentUpdated(Result<(), AppError>),
}

/// What the handler asks for next.
pub enum ComponentBlockAction {
    /// Read the document `id` of the table `table`.
    GetDocument { table: String, id: String },
    /// Store `document` as the document `id` of the table `table`.
    UpdateDocument { table: String, id: String, document: BlockDocument },
    /// Answer the request.
    Reply(Result<(), AppError>),
}

/// The data of a block that refers to the component template
/// `component_id`.
pub open spec fn component_reference(component_id: Seq<char>) -> Map<Seq<char>, ValueView> {
    Map::empty().insert(
        COMPONENT_FIELD@,
        ValueView::Thing(COMPONENT_TABLE@, RecordKeyView::Text(component_id)),
    )
}

/// `event` is an answer to what `state` waits for.
pub open spec fn component_block_accepts(
    state: ComponentBlockState,
    event: ComponentBlockEvent,
) -> bool {
    match state {
        ComponentBlockState::AwaitingDocument { .. } => event is DocumentFetched,
        ComponentBlockState::AwaitingUpdate => event is DocumentUpdated,
        ComponentBlockState::Finished => false,
    }
}

/// Starts adding a block that refers to the template `component_id` to the
/// document `table_id` of the table `table`: the document is asked for.
pub fn component_block_start(table: String, table_id: String, component_id: String) -> (out: (
    ComponentBlockState,
    ComponentBlockAction,
))
    ensures
        out.0 matches ComponentBlockState::AwaitingDocument { table: t, table_id: i, component_id: c }
            && t@ == table@ && i@ == table_id@ && c@ == component_id@,
        out.1 matches ComponentBlockAction::GetDocument { table: t, id } && t@ == table@ && id@
            == table_id@,
{
    let t = table.clone();
    let id = table_id.clone();
    (
        ComponentBlockState::AwaitingDocument { table, table_id, component_id },
        ComponentBlockAction::GetDocument { table: t, id },
    )
}

/// One step of adding a component block.
///
/// - A failed read, or a missing document, is answered with an internal
///   error ("Document not found" for the missing one).
/// - A found document gets a block of type "custom_template" whose id is a
///   fresh random version-4 UUID (quoted) and whose data refers to the
///   template, and is sent to be stored.
/// - A failed store is answered with an internal error; a done one with
///   success.
pub fn component_block_step(state: ComponentBlockState, event: ComponentBlockEvent) -> (out: (
    ComponentBlockState,
    ComponentBlockAction,
))
    requires
        component_block_accepts(state, event),
    ensures
        match state {
            ComponentBlockState::AwaitingDocument { table, table_id, component_id } => match event {
                ComponentBlockEvent::DocumentFetched(Err(e)) => {
                    &&& out.0 is Finished
                    &&& out.1 matches ComponentBlockAction::Reply(Err(x)) && answers_with_internal(x, e)
                },
                ComponentBlockEvent::DocumentFetched(Ok(None)) => {
                    &&& out.0 is Finished
                    &&& out.1 matches ComponentBlockAction::Reply(Err(x)) && x is InternalError
                        && x->InternalError_0@ == DOCUMENT_NOT_FOUND@
                },
                ComponentBlockEvent::DocumentFetched(Ok(Some(doc))) => {
                    &&& out.0 is AwaitingUpdate
                    &&& out.1 matches ComponentBlockAction::UpdateDocument { table: t, id, document }
                        && t@ == table@ && id@ == table_id@ && document@ == doc@.with_block(
                        BlockView {
                            id: document@.blocks.last().id,
                            block_type: COMPONENT_BLOCK_TYPE@,
                            data: component_reference(component_id@),
                        },
                    ) && is_quoted_v4_uuid(document@.blocks.last().id)
                },
                _ => true,
            },
            ComponentBlockState::AwaitingUpdate => match event {
                ComponentBlockEvent::DocumentUpdated(Err(e)) => {
                    &&& out.0 is Finished
                    &&& out.1 matches ComponentBlockAction::Reply(Err(x)) && answers_with_internal(x, e)
                },
                ComponentBlockEvent::DocumentUpdated(Ok(())) => {
                    &&& out.0 is Finished
                    &&& out.1 matches ComponentBlockAction::Reply(Ok(()))
                },
                _ => true,
            },
            ComponentBlockState::Finished => true,
        },
{
    match state {
        ComponentBlockState::AwaitingDocument { table, table_id, component_id } => match event {
            ComponentBlockEvent::DocumentFetched(Err(e)) => {
                (ComponentBlockState::Finished, ComponentBlockAction::Reply(Err(e.into_internal())))
            },
            ComponentBlockEvent::DocumentFetched(Ok(None)) => {
                (
                    ComponentBlockState::Finished,
                    ComponentBlockAction::Reply(
                        Err(AppError::InternalError(DOCUMENT_NOT_FOUND.to_string())),
                    ),
                )
            },
            ComponentBlockEvent::DocumentFetched(Ok(Some(doc))) => {
                let mut document = doc;
                let thing = BlockValue::Thing(
                    RecordId { tb: COMPONENT_TABLE.to_string(), id: RecordKey::Text(component_id) },
                );
                proof {
                    lemma_model_shallow(thing);
                }
                let mut fields = BlockData::new();
                fields.insert(COMPONENT_FIELD.to_string(), thing);
                assert(fields@ =~= component_reference(component_id@));
                let _block_id = document.add_block(COMPONENT_BLOCK_TYPE, fields);
                (
                    ComponentBlockState::AwaitingUpdate,
                    ComponentBlockAction::UpdateDocument { table, id: table_id, document },
                )
            },
            _ => vstd::pervasive::unreached(),
        },
        ComponentBlockState::AwaitingUpdate => match event {
            ComponentBlockEvent::DocumentUpdated(Err(e)) => {
                (ComponentBlockState::Finished, ComponentBlockAction::Reply(Err(e.into_internal())))
            },
            ComponentBlockEvent::DocumentUpdated(Ok(())) => {
                (ComponentBlockState::Finished, ComponentBlockAction::Reply(Ok(())))
            },
            _ => vstd::pervasive::unreached(),
        },
        ComponentBlockState::Finished => vstd::pervasive::unreached(),
    }
}

} // verus!

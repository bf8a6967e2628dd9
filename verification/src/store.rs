//! What the stores make of the database's answers: which record a create
//! gives back, and which error a failed read or write becomes.

use vstd::prelude::*;
use crate::document::BlockDocument;
use crate::error::{AppError, DbError, record_exists_text};
use crate::tables::TablesFieldStore;
use crate::template::BlockComponentTemplate;

verus! {

/// What a document store reports when creating a document gave back no
/// record.
pub const DOCUMENT_NOT_CREATED: &'static str = "The document create document already exits";

/// What the template store reports when creating a template gave back no
/// record.
pub const COMPONENT_NOT_CREATED: &'static str = "The component created already exits";

/// What the stores report when a listing query's rows cannot be read.
pub const ROWS_NOT_READ: &'static str = "A Record with this name already exist";

/// `e` is the database error "record exists" about a thing with the text
/// `thing`.
pub open spec fn is_record_exists(e: AppError, thing: Seq<char>) -> bool {
    &&& e is DatabaseError
    &&& e->DatabaseError_0 is RecordExists
    &&& e->DatabaseError_0->thing@ == thing
}

/// The first record that a create gave back; where it gave back none, the
/// database error "record exists" about `thing`.
pub fn first_created<T>(created: Vec<T>, thing: &str) -> (r: Result<T, AppError>)
    ensures
        match r {
            Ok(x) => created@.len() > 0 && x == created@[0],
            Err(e) => created@.len() == 0 && is_record_exists(e, thing@),
        },
{
    let mut created = created;
    if created.len() > 0 {
        Ok(created.remove(0))
    } else {
        Err(AppError::record_exists(thing))
    }
}

/// The document that creating a document gave back (the first one), or the
/// error that the document store reports when there is none.
pub fn created_document(created: Vec<BlockDocument>) -> (r: Result<BlockDocument, AppError>)
    ensures
        match r {
            Ok(d) => created@.len() > 0 && d == created@[0],
            Err(e) => created@.len() == 0 && is_record_exists(e, DOCUMENT_NOT_CREATED@),
        },
{
    first_created(created, DOCUMENT_NOT_CREATED)
}

/// The template that creating a template gave back (the first one), or the
/// error that the template store reports when there is none.
pub fn created_template(created: Vec<BlockComponentTemplate>) -> (r: Result<
    BlockComponentTemplate,
    AppError,
>)
    ensures
        match r {
            Ok(t) => created@.len() > 0 && t == created@[0],
            Err(e) => created@.len() == 0 && is_record_exists(e, COMPONENT_NOT_CREATED@),
        },
{
    first_created(created, COMPONENT_NOT_CREATED)
}

/// The rows that a listing query gave, or, where they could not be read,
/// the database error "record exists" with the stores' text for it (the
/// database's own error is dropped).
pub fn rows_read<T>(rows: Result<Vec<T>, DbError>) -> (r: Result<Vec<T>, AppError>)
    ensures
        match rows {
            Ok(v) => r == Ok::<Vec<T>, AppError>(v),
            Err(_) => r is Err && is_record_exists(r->Err_0, ROWS_NOT_READ@),
        },
{
    match rows {
        Ok(v) => Ok(v),
        Err(_) => Err(AppError::record_exists(ROWS_NOT_READ)),
    }
}

/// The tables that a lookup by name found, as `TablesStore::get_table_by_name`
/// reports them.
pub fn tables_by_name(rows: Result<Vec<TablesFieldStore>, DbError>) -> (r: Result<
    Vec<TablesFieldStore>,
    AppError,
>)
    ensures
        match rows {
            Ok(v) => r == Ok::<Vec<TablesFieldStore>, AppError>(v),
            Err(_) => r is Err && is_record_exists(r->Err_0, ROWS_NOT_READ@),
        },
{
    rows_read(rows)
}

/// The templates that listing all templates found, as
/// `BlockComponentTemplateStore::get_all_templates` reports them.
pub fn all_templates(rows: Result<Vec<BlockComponentTemplate>, DbError>) -> (r: Result<
    Vec<BlockComponentTemplate>,
    AppError,
>)
    ensures
        match rows {
            Ok(v) => r == Ok::<Vec<BlockComponentTemplate>, AppError>(v),
            Err(_) => r is Err && is_record_exists(r->Err_0, ROWS_NOT_READ@),
        },
{
    rows_read(rows)
}

/// The result of a write to table storage: where the database failed, the
/// error "record exists" whose thing is the database's text for the
/// failure.
pub fn storage_written<T>(result: Result<T, DbError>) -> (r: Result<T, AppError>)
    ensures
        match result {
            Ok(v) => r == Ok::<T, AppError>(v),
            Err(e) => r is Err && is_record_exists(r->Err_0, e.text_spec())
                && r->Err_0.message_spec() == record_exists_text(e.text_spec()),
        },
{
    match result {
        Ok(v) => Ok(v),
        Err(e) => {
            let text = e.text();
            Err(AppError::record_exists(text.as_str()))
        },
    }
}

/// The table-storage records that creating one gave back, as
/// `TablesStore::create_table_storage` reports them.
pub fn table_storage_created(result: Result<Vec<TablesFieldStore>, DbError>) -> (r: Result<
    Vec<TablesFieldStore>,
    AppError,
>)
    ensures
        match result {
            Ok(v) => r == Ok::<Vec<TablesFieldStore>, AppError>(v),
            Err(e) => r is Err && is_record_exists(r->Err_0, e.text_spec()),
        },
{
    storage_written(result)
}

/// The outcome of deleting a table-storage record, as
/// `TablesStore::delete_table_storage` reports it: the deleted record, if
/// any, is dropped.
pub fn table_storage_deleted(result: Result<Option<TablesFieldStore>, DbError>) -> (r: Result<
    (),
    AppError,
>)
    ensures
        match result {
            Ok(_) => r is Ok,
            Err(e) => r is Err && is_record_exists(r->Err_0, e.text_spec()),
        },
{
    match storage_written(result) {
        Ok(_) => Ok(()),
        Err(e) => Err(e),
    }
}

} // verus!

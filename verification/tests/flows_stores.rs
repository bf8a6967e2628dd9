use upbase::document::BlockDocument;
use upbase::error::{AppError, DbError};
use upbase::flow::{
    component_block_start, component_block_step, create_block_start, create_block_step,
    handler_result, ComponentBlockAction, ComponentBlockEvent, ComponentBlockState,
    CreateBlockAction, CreateBlockEvent, CreateBlockState,
};
use upbase::record::{RecordId, RecordKey};
use upbase::store::{
    all_templates, created_document, created_template, first_created, table_storage_created,
    table_storage_deleted, tables_by_name,
};
use upbase::tables::TablesFieldStore;
use upbase::template::BlockComponentTemplate;
use upbase::value::BlockValue;

fn is_record_exists(e: &AppError, thing: &str) -> bool {
    matches!(e, AppError::DatabaseError(DbError::RecordExists { thing: t }) if t == thing)
}

#[test]
fn first_created_takes_the_first() {
    assert_eq!(first_created(vec![7, 8], "t").unwrap(), 7);
    let e = first_created(Vec::<u8>::new(), "t").unwrap_err();
    assert!(is_record_exists(&e, "t"));
}

#[test]
fn created_document_and_template() {
    let d = created_document(vec![BlockDocument::new_at("a", 1), BlockDocument::new_at("b", 2)]);
    assert_eq!(d.unwrap().name, "a");
    let e = created_document(vec![]).unwrap_err();
    assert!(is_record_exists(&e, "The document create document already exits"));
    let e = created_template(vec![]).unwrap_err();
    assert!(is_record_exists(&e, "The component created already exits"));
    let t = created_template(vec![BlockComponentTemplate::new("c")]).unwrap();
    assert_eq!(t.name, "c");
}

#[test]
fn unreadable_rows_become_record_exists() {
    let e = tables_by_name(Err(DbError::Other { message: "parse".to_string() })).unwrap_err();
    assert!(is_record_exists(&e, "A Record with this name already exist"));
    let e = all_templates(Err(DbError::Other { message: "parse".to_string() })).unwrap_err();
    assert!(is_record_exists(&e, "A Record with this name already exist"));
    let ok = tables_by_name(Ok(vec![TablesFieldStore::named("x")])).unwrap();
    assert_eq!(ok.len(), 1);
}

#[test]
fn failed_storage_writes_carry_the_database_text() {
    let e = table_storage_created(Err(DbError::Other { message: "conn".to_string() })).unwrap_err();
    assert!(is_record_exists(&e, "conn"));
    assert_eq!(e.message(), "Database record `conn` already exists");
    let e = table_storage_deleted(Err(DbError::RecordExists { thing: "z".to_string() })).unwrap_err();
    assert!(is_record_exists(&e, "Database record `z` already exists"));
    assert!(table_storage_deleted(Ok(None)).is_ok());
}

#[test]
fn handler_result_wraps_failures() {
    let r: Result<u8, AppError> = handler_result(Err(AppError::BadRequest("q".to_string())));
    assert!(matches!(r, Err(AppError::InternalError(m)) if m == "bad request: q"));
    assert_eq!(handler_result::<u8>(Ok(3)).unwrap(), 3);
}

fn stored_document(table: &str, key: &str) -> BlockDocument {
    let mut d = BlockDocument::new_at("doc", 5);
    d.id = Some(RecordId::from_text(table, key));
    d
}

#[test]
fn create_block_full_run() {
    let (state, action) = create_block_start("books".to_string(), "doc");
    match &action {
        CreateBlockAction::CreateDocument { table, document } => {
            assert_eq!(table, "books");
            assert_eq!(document.name, "doc");
        },
        _ => panic!("expected a create"),
    }
    let (state, action) = create_block_step(
        state,
        CreateBlockEvent::DocumentCreated(Ok(stored_document("books", "k1"))),
    );
    assert!(matches!(&action, CreateBlockAction::FindTable { name } if name == "books"));
    let mut table = TablesFieldStore::named("books");
    table.id = Some(RecordId { tb: "tables_storage".to_string(), id: RecordKey::Text("s1".to_string()) });
    let (state, action) = create_block_step(state, CreateBlockEvent::TablesFound(Ok(vec![table])));
    match &action {
        CreateBlockAction::MergeDocument { table, record, patch } => {
            assert_eq!(table, "books");
            assert_eq!(record, "k1");
            match patch {
                BlockValue::Object(fields) => {
                    assert_eq!(fields.len(), 1);
                    assert_eq!(fields.entries()[0].0, "table_storage_id");
                    assert!(matches!(&fields.entries()[0].1,
                        BlockValue::Thing(r) if r.tb == "tables_storage"
                            && matches!(&r.id, RecordKey::Text(s) if s == "s1")));
                },
                _ => panic!("expected an object"),
            }
        },
        _ => panic!("expected a merge"),
    }
    let (state, action) = create_block_step(state, CreateBlockEvent::Merged(Ok(())));
    assert!(matches!(state, CreateBlockState::Finished));
    match action {
        CreateBlockAction::Reply(Ok(doc)) => assert_eq!(doc.name, "doc"),
        _ => panic!("expected a reply"),
    }
}

#[test]
fn create_block_failures() {
    let (state, _) = create_block_start("books".to_string(), "doc");
    let (_, action) = create_block_step(
        state,
        CreateBlockEvent::DocumentCreated(Err(AppError::NotFound("x".to_string()))),
    );
    assert!(matches!(action,
        CreateBlockAction::Reply(Err(AppError::InternalError(m))) if m == "not found: x"));

    let (state, _) = create_block_start("books".to_string(), "doc");
    let (state, action) =
        create_block_step(state, CreateBlockEvent::DocumentCreated(Ok(BlockDocument::new_at("n", 0))));
    assert!(matches!(state, CreateBlockState::Finished));
    assert!(matches!(action, CreateBlockAction::Reply(Ok(d)) if d.id.is_none()));

    let (state, _) = create_block_start("books".to_string(), "doc");
    let (state, _) =
        create_block_step(state, CreateBlockEvent::DocumentCreated(Ok(stored_document("books", "k"))));
    let (_, action) = create_block_step(
        state,
        CreateBlockEvent::TablesFound(Err(AppError::BadRequest("b".to_string()))),
    );
    assert!(matches!(action, CreateBlockAction::Reply(Err(AppError::BadRequest(m))) if m == "b"));
}

#[test]
fn component_block_full_run() {
    let (state, action) =
        component_block_start("books".to_string(), "k1".to_string(), "c9".to_string());
    assert!(matches!(&action,
        ComponentBlockAction::GetDocument { table, id } if table == "books" && id == "k1"));
    let (state, action) = component_block_step(
        state,
        ComponentBlockEvent::DocumentFetched(Ok(Some(BlockDocument::new_at("d", 0)))),
    );
    assert!(matches!(state, ComponentBlockState::AwaitingUpdate));
    match &action {
        ComponentBlockAction::UpdateDocument { table, id, document } => {
            assert_eq!(table, "books");
            assert_eq!(id, "k1");
            assert_eq!(document.content.blocks.len(), 1);
            let b = &document.content.blocks[0];
            assert_eq!(b.block_type, "custom_template");
            assert_eq!(b.data.entries()[0].0, "component_template_id");
            assert!(matches!(&b.data.entries()[0].1,
                BlockValue::Thing(r) if r.tb == "components"
                    && matches!(&r.id, RecordKey::Text(s) if s == "c9")));
        },
        _ => panic!("expected an update"),
    }
    let (state, action) = component_block_step(state, ComponentBlockEvent::DocumentUpdated(Ok(())));
    assert!(matches!(state, ComponentBlockState::Finished));
    assert!(matches!(action, ComponentBlockAction::Reply(Ok(()))));
}

#[test]
fn component_block_failures() {
    let (state, _) = component_block_start("t".to_string(), "i".to_string(), "c".to_string());
    let (_, action) = component_block_step(state, ComponentBlockEvent::DocumentFetched(Ok(None)));
    assert!(matches!(action,
        ComponentBlockAction::Reply(Err(AppError::InternalError(m))) if m == "Document not found"));

    let (state, _) = component_block_start("t".to_string(), "i".to_string(), "c".to_string());
    let (_, action) = component_block_step(
        state,
        ComponentBlockEvent::DocumentFetched(Err(AppError::InternalError("db".to_string()))),
    );
    assert!(matches!(action,
        ComponentBlockAction::Reply(Err(AppError::InternalError(m))) if m == "internal error: db"));

    let (state, _) = component_block_start("t".to_string(), "i".to_string(), "c".to_string());
    let (state, _) = component_block_step(
        state,
        ComponentBlockEvent::DocumentFetched(Ok(Some(BlockDocument::new_at("d", 0)))),
    );
    let (_, action) = component_block_step(
        state,
        ComponentBlockEvent::DocumentUpdated(Err(AppError::NotFound("u".to_string()))),
    );
    assert!(matches!(action,
        ComponentBlockAction::Reply(Err(AppError::InternalError(m))) if m == "not found: u"));
}

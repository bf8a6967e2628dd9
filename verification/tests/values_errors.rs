use upbase::error::{AppError, DbError};
use upbase::record::{RecordId, RecordKey};
use upbase::tables::TablesFieldStore;
use upbase::template::{BlockComponentTemplate, DisplayConfig};
use upbase::value::{BlockData, BlockValue};

#[test]
fn insert_new_key_then_replace() {
    let mut d = BlockData::new();
    assert_eq!(d.len(), 0);
    assert!(d.insert("a".to_string(), BlockValue::Boolean(true)).is_none());
    assert!(d.insert("b".to_string(), BlockValue::Null).is_none());
    assert_eq!(d.len(), 2);
    let old = d.insert("a".to_string(), BlockValue::Number(2.5f64.to_bits()));
    assert!(matches!(old, Some(BlockValue::Boolean(true))));
    assert_eq!(d.len(), 2);
    let e = d.entries();
    assert_eq!(e[0].0, "a");
    assert!(matches!(e[0].1, BlockValue::Number(bits) if f64::from_bits(bits) == 2.5));
    assert_eq!(e[1].0, "b");
}

#[test]
fn copy_is_deep() {
    let mut inner = BlockData::new();
    inner.insert("n".to_string(), BlockValue::Thing(RecordId::from_text("documents", "x1")));
    let v = BlockValue::Vec(vec![BlockValue::Object(inner), BlockValue::String("s".to_string())]);
    let c = v.copy();
    match c {
        BlockValue::Vec(items) => {
            assert_eq!(items.len(), 2);
            match &items[0] {
                BlockValue::Object(o) => {
                    assert_eq!(o.entries()[0].0, "n");
                    match &o.entries()[0].1 {
                        BlockValue::Thing(r) => {
                            assert_eq!(r.tb, "documents");
                            assert!(matches!(&r.id, RecordKey::Text(t) if t == "x1"));
                        },
                        _ => panic!("expected a record"),
                    }
                },
                _ => panic!("expected an object"),
            }
            assert!(matches!(&items[1], BlockValue::String(s) if s == "s"));
        },
        _ => panic!("expected a list"),
    }
}

#[test]
fn display_config_insert() {
    let mut c = DisplayConfig::new();
    assert_eq!(c.insert("name".to_string(), true), None);
    assert_eq!(c.insert("bio".to_string(), false), None);
    assert_eq!(c.insert("name".to_string(), false), Some(true));
    assert_eq!(c.entries().len(), 2);
    assert_eq!(c.entries()[0], ("name".to_string(), false));
}

#[test]
fn new_template_is_empty() {
    let t = BlockComponentTemplate::new("Author Bio");
    assert_eq!(t.name, "Author Bio");
    assert!(t.id.is_none());
    assert_eq!(t.default_data.len(), 0);
    assert!(t.default_display_config.entries().is_empty());
}

#[test]
fn table_storage_record_for_a_name() {
    let t = TablesFieldStore::named("jTEDDT");
    assert_eq!(t.name, "jTEDDT");
    assert!(t.id.is_none());
    assert_eq!(t.table_type, "");
}

#[test]
fn record_key_text_as_the_database_displays_it() {
    let r = RecordId { tb: "t".to_string(), id: RecordKey::Number(42) };
    assert_eq!(r.key_text(), "42");
    assert_eq!(RecordId::from_text("t", "abc").key_text(), "abc");
    assert_eq!(RecordId::from_text("t", "a-b").key_text(), "⟨a-b⟩");
    assert_eq!(RecordId::from_text("t", "123").key_text(), "⟨123⟩");
}

#[test]
fn error_texts_and_statuses() {
    let e = AppError::InternalError("boom".to_string());
    assert_eq!(e.text(), "internal error: boom");
    assert_eq!(e.message(), "boom");
    assert_eq!(e.status_code(), 500);

    let e = AppError::BadRequest("bad".to_string());
    assert_eq!(e.text(), "bad request: bad");
    assert_eq!(e.status_code(), 400);

    let e = AppError::NotFound("gone".to_string());
    assert_eq!(e.text(), "not found: gone");
    assert_eq!(e.message(), "gone");
    assert_eq!(e.status_code(), 404);

    let e = AppError::DatabaseError(DbError::Other { message: "down".to_string() });
    assert_eq!(e.text(), "database error: down");
    assert_eq!(e.message(), "down");
    assert_eq!(e.status_code(), 500);
}

#[test]
fn record_exists_error_reads_as_the_database_says() {
    let e = AppError::record_exists("x");
    assert_eq!(e.message(), "Database record `x` already exists");
    assert_eq!(e.text(), "database error: Database record `x` already exists");
    assert_eq!(e.status_code(), 500);
    let d = DbError::RecordExists { thing: "y".to_string() };
    assert_eq!(d.text(), "Database record `y` already exists");
}

#[test]
fn internal_error_wraps_the_text() {
    let e = AppError::NotFound("x".to_string()).into_internal();
    assert!(matches!(&e, AppError::InternalError(m) if m == "not found: x"));
    assert_eq!(e.text(), "internal error: not found: x");
}

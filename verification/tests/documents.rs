use upbase::clock::Timestamp;
use upbase::document::{BlockDocument, DOCUMENT_VERSION};
use upbase::value::{BlockData, BlockValue};

fn text_data(key: &str, text: &str) -> BlockData {
    let mut d = BlockData::new();
    d.insert(key.to_string(), BlockValue::String(text.to_string()));
    d
}

fn text_of(d: &BlockData, key: &str) -> Option<String> {
    for (k, v) in d.entries() {
        if k == key {
            if let BlockValue::String(s) = v {
                return Some(s.clone());
            }
        }
    }
    None
}

#[test]
fn new_document_is_empty_and_stamped() {
    let doc = BlockDocument::new("notes");
    assert_eq!(doc.name, "notes");
    assert!(doc.id.is_none());
    assert!(doc.content.blocks.is_empty());
    assert!(doc.changes.is_empty());
    assert_eq!(doc.content.version, "2.22.2");
    assert_eq!(DOCUMENT_VERSION, "2.22.2");
    // stamped with the current time: after 2020-01-01 in milliseconds
    assert!(doc.content.time > 1_577_836_800_000);
}

#[test]
fn new_at_uses_the_given_time() {
    let doc = BlockDocument::new_at("a", 1234);
    assert_eq!(doc.content.time, 1234);
    assert_eq!(doc.name, "a");
}

#[test]
fn add_block_appends_with_fresh_id() {
    let mut doc = BlockDocument::new_at("d", 0);
    let id1 = doc.add_block("header", text_data("text", "hola"));
    let id2 = doc.add_block("paragraph", text_data("text", "world"));
    assert_eq!(doc.content.blocks.len(), 2);
    assert_eq!(doc.content.blocks[0].id, id1);
    assert_eq!(doc.content.blocks[0].block_type, "header");
    assert_eq!(doc.content.blocks[1].id, id2);
    assert_eq!(doc.content.blocks[1].block_type, "paragraph");
    assert_ne!(id1, id2);
    assert!(!id1.is_empty());
    assert!(doc.changes.is_empty());
}

#[test]
fn update_block_replaces_data_and_logs_change() {
    let mut doc = BlockDocument::new_at("d", 0);
    doc.add_block_with_id("b1".to_string(), "text", text_data("text", "old"));
    doc.add_block_with_id("b2".to_string(), "text", text_data("text", "other"));
    let at = Timestamp { secs: 10, nanos: 5 };
    let r = doc.update_block_at("b1", text_data("text", "new"), at);
    assert!(r.is_ok());
    assert_eq!(text_of(&doc.content.blocks[0].data, "text").as_deref(), Some("new"));
    assert_eq!(text_of(&doc.content.blocks[1].data, "text").as_deref(), Some("other"));
    assert_eq!(doc.content.blocks[0].id, "b1");
    assert_eq!(doc.changes.len(), 1);
    let c = &doc.changes[0];
    assert_eq!(c.block_id, "b1");
    assert_eq!(c.timestamp, at);
    assert_eq!(text_of(&c.old_data, "text").as_deref(), Some("old"));
    assert_eq!(text_of(&c.new_data, "text").as_deref(), Some("new"));
}

#[test]
fn update_block_with_current_time() {
    let mut doc = BlockDocument::new_at("d", 0);
    doc.add_block_with_id("b1".to_string(), "text", text_data("text", "old"));
    assert!(doc.update_block("b1", text_data("text", "new")).is_ok());
    assert_eq!(doc.changes.len(), 1);
    assert!(doc.changes[0].timestamp.secs > 1_577_836_800);
    assert!(doc.changes[0].timestamp.nanos < 1_000_000_000);
}

#[test]
fn update_missing_block_fails_and_changes_nothing() {
    let mut doc = BlockDocument::new_at("d", 0);
    doc.add_block_with_id("b1".to_string(), "text", text_data("text", "old"));
    let r = doc.update_block("nope", text_data("text", "new"));
    assert_eq!(r, Err("Block not found".to_string()));
    assert_eq!(text_of(&doc.content.blocks[0].data, "text").as_deref(), Some("old"));
    assert!(doc.changes.is_empty());
}

#[test]
fn update_on_empty_document_fails() {
    let mut doc = BlockDocument::new_at("d", 0);
    let r = doc.update_block_at("b1", BlockData::new(), Timestamp { secs: 0, nanos: 0 });
    assert_eq!(r, Err("Block not found".to_string()));
}

#[test]
fn update_touches_only_the_first_block_with_the_id() {
    let mut doc = BlockDocument::new_at("d", 0);
    doc.add_block_with_id("x".to_string(), "t", text_data("v", "1"));
    doc.add_block_with_id("x".to_string(), "t", text_data("v", "2"));
    doc.update_block_at("x", text_data("v", "3"), Timestamp { secs: 0, nanos: 0 }).unwrap();
    assert_eq!(text_of(&doc.content.blocks[0].data, "v").as_deref(), Some("3"));
    assert_eq!(text_of(&doc.content.blocks[1].data, "v").as_deref(), Some("2"));
}

#[test]
fn change_log_undoes_an_update() {
    let mut doc = BlockDocument::new_at("d", 0);
    doc.add_block_with_id("b".to_string(), "t", text_data("v", "before"));
    doc.update_block_at("b", text_data("v", "after"), Timestamp { secs: 1, nanos: 0 }).unwrap();
    let old = doc.changes[0].old_data.copy();
    doc.update_block_at("b", old, Timestamp { secs: 2, nanos: 0 }).unwrap();
    assert_eq!(text_of(&doc.content.blocks[0].data, "v").as_deref(), Some("before"));
    assert_eq!(doc.changes.len(), 2);
}

#[test]
fn added_block_can_be_updated() {
    let mut doc = BlockDocument::new_at("d", 0);
    let id = doc.add_block("t", BlockData::new());
    assert!(doc.update_block(&id, text_data("k", "v")).is_ok());
    assert_eq!(text_of(&doc.content.blocks[0].data, "k").as_deref(), Some("v"));
}

#[test]
fn millis_of_a_timestamp() {
    assert_eq!(Timestamp { secs: 1, nanos: 999_999_999 }.millis(), 1999);
    assert_eq!(Timestamp { secs: 1_700_000_000, nanos: 123_456_789 }.millis(), 1_700_000_000_123);
    assert_eq!(Timestamp { secs: 0, nanos: 999_999 }.millis(), 0);
}

#[test]
fn change_log_agrees_with_blocks_after_a_series_of_edits() {
    let mut doc = BlockDocument::new_at("d", 0);
    doc.add_block_with_id("a".to_string(), "t", text_data("v", "a0"));
    doc.add_block_with_id("b".to_string(), "t", text_data("v", "b0"));
    let t = Timestamp { secs: 1, nanos: 0 };
    let mut ok = 0;
    for (id, v) in [("a", "a1"), ("b", "b1"), ("zz", "x"), ("a", "a2")] {
        if doc.update_block_at(id, text_data("v", v), t).is_ok() {
            ok += 1;
        }
    }
    doc.add_block_with_id("c".to_string(), "t", text_data("v", "c0"));
    assert_eq!(doc.changes.len(), ok);
    assert_eq!(ok, 3);
    for c in &doc.changes {
        assert!(doc.content.blocks.iter().any(|b| b.id == c.block_id));
    }
    // the last change to each block left its data
    for b in &doc.content.blocks {
        if let Some(c) = doc.changes.iter().rev().find(|c| c.block_id == b.id) {
            assert_eq!(text_of(&c.new_data, "v"), text_of(&b.data, "v"));
        }
    }
    // consecutive changes to "a" chain
    assert_eq!(text_of(&doc.changes[2].old_data, "v"), text_of(&doc.changes[0].new_data, "v"));
}

#[test]
fn block_ids_are_quoted_v4_uuids() {
    let mut doc = BlockDocument::new_at("d", 0);
    let id = doc.add_block("t", BlockData::new());
    let c: Vec<char> = id.chars().collect();
    assert_eq!(c.len(), 38);
    assert_eq!(c[0], '\'');
    assert_eq!(c[37], '\'');
    for i in [9, 14, 19, 24] {
        assert_eq!(c[i], '-');
    }
    assert_eq!(c[15], '4');
    for i in 1..37 {
        if ![9, 14, 19, 24].contains(&i) {
            assert!(c[i].is_ascii_hexdigit() && !c[i].is_ascii_uppercase());
        }
    }
}

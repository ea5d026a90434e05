use tekton_lsp::document::{ContentChange, Document, DocumentCache, DocumentError};
use tekton_lsp::position::{Position, Range};

fn range(sl: u32, sc: u32, el: u32, ec: u32) -> Range {
    Range { start: Position { line: sl, character: sc }, end: Position { line: el, character: ec } }
}

fn edit(r: Range, text: &str) -> ContentChange {
    ContentChange { range: Some(r), text: text.to_string() }
}

fn full(text: &str) -> ContentChange {
    ContentChange { range: None, text: text.to_string() }
}

#[test]
fn test_document_creation() {
    let uri = "file:///test.yaml".to_string();
    let doc = Document::new(uri.clone(), "yaml".to_string(), 1, "test content".to_string());

    assert_eq!(doc.uri, uri);
    assert_eq!(doc.language_id, "yaml");
    assert_eq!(doc.version, 1);
    assert_eq!(doc.content, "test content");
}

#[test]
fn test_full_document_change() {
    let mut doc = Document::new("file:///test.yaml".to_string(), "yaml".to_string(), 1, "old content".to_string());
    doc.apply_changes(vec![full("new content")]);
    assert_eq!(doc.content, "new content");
}

#[test]
fn test_cache_insert_and_get() {
    let mut cache = DocumentCache::new();
    let uri = "file:///test.yaml";
    cache.insert(uri.to_string(), "yaml".to_string(), 1, "test".to_string());

    let doc = cache.get(uri).unwrap();
    assert_eq!(doc.content, "test");
    assert_eq!(doc.version, 1);
}

#[test]
fn test_cache_remove() {
    let mut cache = DocumentCache::new();
    let uri = "file:///test.yaml";
    cache.insert(uri.to_string(), "yaml".to_string(), 1, "test".to_string());
    assert!(cache.get(uri).is_some());

    cache.remove(uri);
    assert!(cache.get(uri).is_none());
}

#[test]
fn test_cache_update() {
    let mut cache = DocumentCache::new();
    let uri = "file:///test.yaml";
    cache.insert(uri.to_string(), "yaml".to_string(), 1, "line 1\nline 2".to_string());

    cache.update(uri, 2, vec![full("updated content")]).unwrap();

    let doc = cache.get(uri).unwrap();
    assert_eq!(doc.version, 2);
    assert_eq!(doc.content, "updated content");
}

#[test]
fn full_replace_of_multiline_document_leaves_nothing_behind() {
    let mut cache = DocumentCache::new();
    let uri = "file:///p.yaml";
    cache.insert(uri.to_string(), "yaml".to_string(), 3, "apiVersion: v1\nkind: Task\nmetadata:\n  name: x\n".to_string());
    cache.update(uri, 4, vec![full("kind: Pipeline")]).unwrap();
    let doc = cache.get(uri).unwrap();
    assert_eq!(doc.content, "kind: Pipeline");
    assert_eq!(doc.version, 4);
}

#[test]
fn update_of_unopened_document_is_an_error() {
    let mut cache = DocumentCache::new();
    assert_eq!(cache.update("file:///none.yaml", 2, vec![full("x")]), Err(DocumentError::NotOpen));
    assert!(cache.get("file:///none.yaml").is_none());
}

#[test]
fn insert_replaces_open_document() {
    let mut cache = DocumentCache::new();
    cache.insert("a".to_string(), "yaml".to_string(), 1, "one".to_string());
    cache.insert("b".to_string(), "yaml".to_string(), 1, "bee".to_string());
    cache.insert("a".to_string(), "yaml".to_string(), 5, "two".to_string());
    assert_eq!(cache.get("a").unwrap().content, "two");
    assert_eq!(cache.get("a").unwrap().version, 5);
    assert_eq!(cache.get("b").unwrap().content, "bee");
    assert_eq!(cache.all().len(), 2);
}

#[test]
fn incremental_edit_inside_a_line() {
    let mut doc = Document::new("u".to_string(), "yaml".to_string(), 1, "name: foo\nkind: Task".to_string());
    doc.apply_changes(vec![edit(range(0, 6, 0, 9), "bar")]);
    assert_eq!(doc.content, "name: bar\nkind: Task");
}

#[test]
fn incremental_edit_across_lines_keeps_final_newline() {
    let mut doc = Document::new("u".to_string(), "yaml".to_string(), 1, "a\nb\nc\n".to_string());
    doc.apply_changes(vec![edit(range(0, 1, 2, 0), "X")]);
    assert_eq!(doc.content, "aXc\n");
}

#[test]
fn incremental_insert_at_end_without_final_newline() {
    let mut doc = Document::new("u".to_string(), "yaml".to_string(), 1, "a\nb".to_string());
    doc.apply_changes(vec![edit(range(1, 1, 1, 1), "c")]);
    assert_eq!(doc.content, "a\nbc");
}

#[test]
fn edits_in_a_batch_apply_in_order() {
    let mut doc = Document::new("u".to_string(), "yaml".to_string(), 1, "abc".to_string());
    doc.apply_changes(vec![edit(range(0, 0, 0, 1), "X"), edit(range(0, 1, 0, 2), "Y")]);
    assert_eq!(doc.content, "XYc");
}

#[test]
fn edit_positions_past_the_end_are_clamped() {
    let mut doc = Document::new("u".to_string(), "yaml".to_string(), 1, "ab\ncd".to_string());
    doc.apply_changes(vec![edit(range(1, 1, 9, 9), "Z")]);
    assert_eq!(doc.content, "ab\ncZ");
}

#[test]
fn incremental_edits_match_full_replace() {
    let start = "kind: Task\nmetadata:\n  name: a\n";
    let target = "kind: Pipeline\nmetadata:\n  name: b\n";
    let mut inc = Document::new("u".to_string(), "yaml".to_string(), 1, start.to_string());
    inc.apply_changes(vec![edit(range(0, 6, 0, 10), "Pipeline"), edit(range(2, 8, 2, 9), "b")]);
    let mut whole = Document::new("u".to_string(), "yaml".to_string(), 1, start.to_string());
    whole.apply_changes(vec![full(target)]);
    assert_eq!(inc.content, target);
    assert_eq!(inc.content, whole.content);
}

#[test]
fn crlf_line_breaks_are_kept() {
    let mut doc = Document::new("u".to_string(), "yaml".to_string(), 1, "a\r\nb\r\n".to_string());
    doc.apply_changes(vec![edit(range(0, 0, 0, 1), "x")]);
    assert_eq!(doc.content, "x\r\nb\r\n");
    let mut doc = Document::new("u".to_string(), "yaml".to_string(), 1, "a\r\nb".to_string());
    doc.apply_changes(vec![edit(range(1, 0, 1, 0), "x")]);
    assert_eq!(doc.content, "a\r\nxb");
    let mut doc = Document::new("u".to_string(), "yaml".to_string(), 1, "ab\r\nc".to_string());
    doc.apply_changes(vec![edit(range(0, 9, 0, 9), "!")]);
    assert_eq!(doc.content, "ab!\r\nc");
}

#[test]
fn insert_past_last_line_goes_to_end_of_text() {
    let mut doc = Document::new("u".to_string(), "yaml".to_string(), 1, "a\nb".to_string());
    doc.apply_changes(vec![edit(range(5, 0, 5, 0), "x")]);
    assert_eq!(doc.content, "a\nbx");
    let mut doc = Document::new("u".to_string(), "yaml".to_string(), 1, "a\nb".to_string());
    doc.apply_changes(vec![edit(range(u32::MAX, u32::MAX, u32::MAX, u32::MAX), "x")]);
    assert_eq!(doc.content, "a\nbx");
}

#[test]
fn reversed_range_inserts_at_start() {
    let mut doc = Document::new("u".to_string(), "yaml".to_string(), 1, "abc".to_string());
    doc.apply_changes(vec![edit(range(0, 2, 0, 1), "X")]);
    assert_eq!(doc.content, "abXc");
}

#[test]
fn columns_count_characters() {
    let mut doc = Document::new("u".to_string(), "yaml".to_string(), 1, "é: 1\nb".to_string());
    doc.apply_changes(vec![edit(range(0, 1, 0, 1), "x")]);
    assert_eq!(doc.content, "éx: 1\nb");
}

use tekton_lsp::ast::{Node, NodeValue};
use tekton_lsp::parser::parse_yaml;
use tekton_lsp::position::Position;
use tekton_lsp::syntax::{build_ast, document_from_syntax, whole_range, SyntaxNode};
use tekton_lsp::position::Range;

fn within(inner: &Range, outer: &Range) -> bool {
    let le = |a: (u32, u32), b: (u32, u32)| a <= b;
    le((outer.start.line, outer.start.character), (inner.start.line, inner.start.character))
        && le((inner.end.line, inner.end.character), (outer.end.line, outer.end.character))
}

fn check_nested(n: &Node) {
    let children: &[Node] = match &n.value {
        NodeValue::Mapping(items) => items,
        NodeValue::Sequence(items) => items,
        _ => &[],
    };
    for c in children {
        assert!(within(&c.range, &n.range), "child range {:?} outside parent {:?}", c.range, n.range);
        check_nested(c);
    }
}

#[test]
fn test_parse_simple_yaml() {
    let yaml = r#"
apiVersion: tekton.dev/v1
kind: Pipeline
metadata:
  name: test-pipeline
"#;

    let doc = parse_yaml("test.yaml", yaml).unwrap();

    assert_eq!(doc.api_version, Some("tekton.dev/v1".to_string()));
    assert_eq!(doc.kind, Some("Pipeline".to_string()));

    let metadata = doc.root.get("metadata").unwrap();
    assert!(metadata.is_mapping());

    let name = metadata.get("name").unwrap();
    assert_eq!(name.as_scalar(), Some("test-pipeline"));
}

#[test]
fn test_parse_yaml_with_sequence() {
    let yaml = r#"
kind: Pipeline
spec:
  tasks:
    - name: task1
      taskRef:
        name: build
    - name: task2
      taskRef:
        name: test
"#;

    let doc = parse_yaml("test.yaml", yaml).unwrap();

    let spec = doc.root.get("spec").unwrap();
    let tasks = spec.get("tasks").unwrap();

    assert!(tasks.is_sequence());
}

#[test]
fn test_parse_invalid_yaml() {
    let yaml = "invalid: yaml: content:";
    let result = parse_yaml("test.yaml", yaml);
    let _ = result;
}

#[test]
fn test_accurate_position_tracking() {
    let yaml = r#"apiVersion: tekton.dev/v1
kind: Pipeline
metadata:
  name: test-pipeline
  namespace: default
spec:
  tasks:
    - name: task1
"#;

    let doc = parse_yaml("test.yaml", yaml).unwrap();

    assert_eq!(doc.root.range.start.line, 0);

    let metadata = doc.root.get("metadata").unwrap();
    assert_eq!(metadata.range.start.line, 2, "metadata should start at line 2");

    let spec = doc.root.get("spec").unwrap();
    assert_eq!(spec.range.start.line, 5, "spec should start at line 5");

    assert_ne!(metadata.range.end.character, 100, "should not have placeholder character position");
    assert!(metadata.range.end.character > 0, "should have real character position");
}

#[test]
fn mapping_entry_range_spans_key_and_value() {
    let doc = parse_yaml("t.yaml", "kind: Task\nmetadata:\n  name: build-task\n").unwrap();
    let kind = doc.root.get("kind").unwrap();
    assert_eq!((kind.range.start.line, kind.range.start.character), (0, 0));
    assert_eq!((kind.range.end.line, kind.range.end.character), (0, 10));
    assert_eq!(kind.key.as_deref(), Some("kind"));
}

#[test]
fn child_ranges_lie_within_parents() {
    let yaml = "apiVersion: tekton.dev/v1\nkind: Pipeline\nmetadata:\n  name: p\nspec:\n  params: [a, b]\n  tasks:\n    - name: t\n      taskRef: {name: x, kind: Task}\n      runAfter:\n        - y\n";
    let doc = parse_yaml("t.yaml", yaml).unwrap();
    check_nested(&doc.root);
    let tasks = doc.root.get("spec").unwrap().get("tasks").unwrap();
    match &tasks.value {
        NodeValue::Sequence(items) => assert_eq!(items.len(), 1),
        _ => panic!("tasks should be a sequence"),
    }
    let flow = doc.root.get("spec").unwrap().get("params").unwrap();
    assert!(flow.is_sequence());
    check_nested(&parse_yaml("x", "a: [1, {b: c}]\nd:\n  - - e\n").unwrap().root);
}

#[test]
fn truncated_sequence_gives_prefix_tree_and_diagnostic() {
    let yaml = "kind: Task\nmetadata:\n  name: t\nspec:\n  steps:\n    - name: a\n    - [";
    let doc = parse_yaml("t.yaml", yaml).unwrap();
    assert!(!doc.diagnostics.is_empty(), "expected a diagnostic");
    assert_eq!(doc.kind.as_deref(), Some("Task"));
    check_nested(&doc.root);
}

#[test]
fn well_formed_input_has_no_diagnostics() {
    let doc = parse_yaml("t.yaml", "kind: Task\nmetadata:\n  name: t\n").unwrap();
    assert!(doc.diagnostics.is_empty());
}

#[test]
fn scalars_keep_their_literal_text() {
    let doc = parse_yaml("t.yaml", "a: 010\nb: 'q'\nc: true\n").unwrap();
    assert_eq!(doc.root.get("a").unwrap().as_scalar(), Some("010"));
    assert_eq!(doc.root.get("b").unwrap().as_scalar(), Some("'q'"));
    assert_eq!(doc.root.get("c").unwrap().as_scalar(), Some("true"));
}

#[test]
fn empty_text_parses() {
    let doc = parse_yaml("t.yaml", "").unwrap();
    assert!(doc.kind.is_none());
}

#[test]
fn missing_value_after_sequence_marker_is_reported() {
    let doc = parse_yaml("t.yaml", "kind: Task\nsteps:\n  - a\n  -").unwrap();
    assert!(!doc.diagnostics.is_empty());
    assert_eq!(doc.kind.as_deref(), Some("Task"));
    let steps = doc.root.get("steps").unwrap();
    match &steps.value {
        NodeValue::Sequence(items) => {
            assert_eq!(items.len(), 1);
            assert_eq!(items[0].as_scalar(), Some("a"));
        }
        _ => panic!("steps should be a sequence"),
    }
}

fn syn(kind: &str, field: Option<&str>, range: Range, text: &str, children: Vec<SyntaxNode>) -> SyntaxNode {
    SyntaxNode {
        kind: kind.to_string(),
        field: field.map(|f| f.to_string()),
        range,
        text: text.to_string(),
        is_error: false,
        is_missing: false,
        has_error: false,
        children,
    }
}

fn rng(sl: u32, sc: u32, el: u32, ec: u32) -> Range {
    Range { start: Position { line: sl, character: sc }, end: Position { line: el, character: ec } }
}

#[test]
fn built_mapping_keys_and_spans_from_syntax() {
    let key = syn("flow_node", Some("key"), rng(0, 2, 0, 3), "k", vec![]);
    let value = syn("plain_scalar", Some("value"), rng(0, 5, 0, 6), "v", vec![]);
    let pair = syn("block_mapping_pair", None, rng(0, 0, 0, 9), "k: v", vec![key, value]);
    let map = syn("block_mapping", None, rng(0, 0, 1, 0), "k: v", vec![pair]);
    let root = build_ast(&map, &None, whole_range());
    let entry = root.get("k").unwrap();
    assert_eq!(entry.key.as_deref(), Some("k"));
    assert_eq!(entry.range, rng(0, 2, 0, 6));
    assert_eq!(entry.as_scalar(), Some("v"));
}

#[test]
fn built_sequence_keeps_order_and_skips_empty_items() {
    let item = |t: &str, c: u32| {
        syn("block_sequence_item", None, rng(c, 0, c, 3), t, vec![
            syn("-", None, rng(c, 0, c, 1), "-", vec![]),
            syn("plain_scalar", None, rng(c, 2, c, 3), t, vec![]),
        ])
    };
    let empty = syn("block_sequence_item", None, rng(2, 0, 2, 1), "-", vec![syn("-", None, rng(2, 0, 2, 1), "-", vec![])]);
    let seq = syn("block_sequence", None, rng(0, 0, 3, 0), "", vec![item("a", 0), item("b", 1), empty]);
    let root = build_ast(&seq, &None, whole_range());
    match &root.value {
        NodeValue::Sequence(items) => {
            assert_eq!(items.len(), 2);
            assert_eq!(items[0].as_scalar(), Some("a"));
            assert_eq!(items[1].as_scalar(), Some("b"));
            assert!(items[0].key.is_none());
        }
        _ => panic!("expected a sequence"),
    }
    let doc = document_from_syntax("x", &seq);
    assert_eq!(doc.diagnostics.len(), 1);
}

#[test]
fn error_tree_gives_a_diagnostic() {
    let mut bad = syn("ERROR", None, rng(0, 0, 0, 3), "[[[", vec![]);
    bad.has_error = true;
    let doc = document_from_syntax("x", &bad);
    assert!(!doc.diagnostics.is_empty());
}

#[test]
fn columns_are_characters() {
    let doc = parse_yaml("t.yaml", "é: ü\nkind: Task\n").unwrap();
    let e = doc.root.get("é").unwrap();
    assert_eq!(e.range.end, Position { line: 0, character: 4 });
}

#[test]
fn repeated_key_last_wins_and_order_is_kept() {
    let doc = parse_yaml("t.yaml", "a: 1\nb: 2\na: 3").unwrap();
    assert_eq!(doc.root.get("a").unwrap().as_scalar(), Some("3"));
    match &doc.root.value {
        NodeValue::Mapping(items) => {
            let keys: Vec<&str> = items.iter().map(|n| n.key.as_deref().unwrap()).collect();
            assert_eq!(keys, vec!["a", "b", "a"]);
        }
        _ => panic!("expected a mapping"),
    }
}

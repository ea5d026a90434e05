use tekton_lsp::completion::{find_completion_context, CompletionContext, CompletionKind, CompletionProvider};
use tekton_lsp::parser;
use tekton_lsp::position::Position;

#[test]
fn test_complete_metadata_fields() {
    let content = "apiVersion: tekton.dev/v1\nkind: Pipeline\nmetadata:\n  namespace: default";
    let yaml_doc = parser::parse_yaml("test.yaml", content).expect("Failed to parse YAML");
    let provider = CompletionProvider::new();
    let completions = provider.provide_completions(&yaml_doc, Position { line: 3, character: 2 });
    let labels: Vec<String> = completions.iter().map(|c| c.label.clone()).collect();
    assert!(labels.contains(&"name".to_string()), "Should suggest 'name' field. Got: {:?}", labels);
    assert!(labels.contains(&"namespace".to_string()), "Should suggest 'namespace' field. Got: {:?}", labels);
    assert!(labels.contains(&"labels".to_string()), "Should suggest 'labels' field. Got: {:?}", labels);
    assert!(labels.contains(&"annotations".to_string()), "Should suggest 'annotations' field. Got: {:?}", labels);
    assert_eq!(completions[0].kind, CompletionKind::Field);
    assert_eq!(completions[2].kind, CompletionKind::Struct);
    assert_eq!(completions[0].detail, "Resource name (required)");
}

#[test]
fn completion_contexts() {
    let content = "apiVersion: tekton.dev/v1\nkind: Pipeline\nmetadata:\n  name: p\nspec:\n  params: []\n  tasks:\n    - name: build\n      taskRef:\n        name: t\n";
    let doc = parser::parse_yaml("t.yaml", content).unwrap();
    let at = |line, character| find_completion_context(&doc.root, Position { line, character }, &doc.kind);
    assert_eq!(at(3, 3), CompletionContext::Metadata);
    assert_eq!(at(5, 3), CompletionContext::PipelineSpec);
    assert_eq!(at(7, 8), CompletionContext::PipelineTask);
    assert_eq!(at(0, 3), CompletionContext::Unknown);
    assert_eq!(at(40, 0), CompletionContext::Unknown);
    let task = parser::parse_yaml("t.yaml", "kind: Task\nspec:\n  params: []\n  steps:\n    - name: a\n").unwrap();
    assert_eq!(find_completion_context(&task.root, Position { line: 2, character: 3 }, &task.kind), CompletionContext::TaskSpec);
    assert_eq!(find_completion_context(&task.root, Position { line: 4, character: 8 }, &task.kind), CompletionContext::Step);
    let items = CompletionProvider::new().provide_completions(&task, Position { line: 4, character: 8 });
    assert_eq!(items.len(), 7);
    assert_eq!(items[1].label, "image");
}

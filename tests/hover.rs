use tekton_lsp::hover::HoverProvider;
use tekton_lsp::parser;
use tekton_lsp::position::Position;

fn hover_text(content: &str, line: u32, character: u32) -> Option<String> {
    let yaml_doc = parser::parse_yaml("test.yaml", content).expect("Failed to parse YAML");
    let provider = HoverProvider::new();
    provider.provide_hover(&yaml_doc, Position { line, character }).map(|h| h.contents)
}

#[test]
fn test_hover_on_tasks_field() {
    let content = "apiVersion: tekton.dev/v1\nkind: Pipeline\nmetadata:\n  name: test\nspec:\n  tasks:\n    - name: build";
    let hover = hover_text(content, 5, 4);
    assert!(hover.is_some(), "Should return hover information for 'tasks' field");
    let content = hover.unwrap();
    assert!(content.contains("tasks") || content.contains("Tasks"), "Hover should mention tasks. Got: {}", content);
    assert!(content.contains("PipelineTask") || content.contains("Pipeline"), "Hover should describe PipelineTask. Got: {}", content);
}

#[test]
fn test_hover_on_steps_field() {
    let content = "apiVersion: tekton.dev/v1\nkind: Task\nmetadata:\n  name: build-task\nspec:\n  steps:\n    - name: compile";
    let hover = hover_text(content, 5, 4);
    assert!(hover.is_some(), "Should return hover for 'steps' field");
    let content = hover.unwrap();
    assert!(content.contains("steps") || content.contains("Steps") || content.contains("container"), "Hover should describe steps. Got: {}", content);
}

#[test]
fn test_hover_on_params_field() {
    let content = "apiVersion: tekton.dev/v1\nkind: Pipeline\nmetadata:\n  name: test\nspec:\n  params:\n    - name: version";
    let hover = hover_text(content, 5, 4);
    assert!(hover.is_some(), "Should return hover for 'params' field");
    let content = hover.unwrap();
    assert!(content.contains("param") || content.contains("Param"), "Hover should describe params. Got: {}", content);
}

#[test]
fn test_hover_on_pipeline_kind() {
    let content = "apiVersion: tekton.dev/v1\nkind: Pipeline\nmetadata:\n  name: test";
    let hover = hover_text(content, 1, 7);
    assert!(hover.is_some(), "Should return hover for 'Pipeline' kind value");
    let content = hover.unwrap();
    assert!(content.contains("Pipeline"), "Hover should describe Pipeline. Got: {}", content);
    assert!(content.contains("Task") || content.contains("collection"), "Hover should describe Pipeline as a collection of Tasks. Got: {}", content);
}

#[test]
fn test_hover_on_task_kind() {
    let content = "apiVersion: tekton.dev/v1\nkind: Task\nmetadata:\n  name: build-task";
    let hover = hover_text(content, 1, 7);
    assert!(hover.is_some(), "Should return hover for 'Task' kind value");
    let content = hover.unwrap();
    assert!(content.contains("Task"), "Hover should describe Task. Got: {}", content);
    assert!(content.contains("Step") || content.contains("Pod"), "Hover should describe Task execution. Got: {}", content);
}

#[test]
fn test_hover_on_metadata_field() {
    let content = "apiVersion: tekton.dev/v1\nkind: Pipeline\nmetadata:\n  name: test-pipeline";
    let hover = hover_text(content, 2, 2);
    assert!(hover.is_some(), "Should return hover for 'metadata' field");
    let content = hover.unwrap();
    assert!(content.contains("metadata") || content.contains("Kubernetes"), "Hover should describe metadata. Got: {}", content);
}

#[test]
fn test_hover_on_name_field() {
    let content = "apiVersion: tekton.dev/v1\nkind: Pipeline\nmetadata:\n  name: test-pipeline";
    let hover = hover_text(content, 3, 4);
    assert!(hover.is_some(), "Should return hover for 'name' field");
    let content = hover.unwrap();
    assert!(content.contains("name") || content.contains("Name"), "Hover should describe name field. Got: {}", content);
}

#[test]
fn test_hover_on_labels_field() {
    let content = "apiVersion: tekton.dev/v1\nkind: Pipeline\nmetadata:\n  name: test\n  labels:\n    app: my-app";
    let hover = hover_text(content, 4, 4);
    assert!(hover.is_some(), "Should return hover for 'labels' field");
    let content = hover.unwrap();
    assert!(content.contains("label") || content.contains("Label"), "Hover should describe labels. Got: {}", content);
}

#[test]
fn hover_outside_document_gives_nothing() {
    assert!(hover_text("kind: Task", 7, 0).is_none());
    assert!(hover_text("foo: bar", 0, 1).is_none());
}

#[test]
fn hover_range_is_the_entry() {
    let doc = parser::parse_yaml("t.yaml", "kind: Task\nspec:\n  steps: []\n").unwrap();
    let h = HoverProvider::new().provide_hover(&doc, Position { line: 2, character: 3 }).unwrap();
    assert_eq!(h.range.start, Position { line: 2, character: 2 });
    assert!(h.contents.starts_with("# steps"));
}

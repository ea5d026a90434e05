use tekton_lsp::definition::DefinitionProvider;
use tekton_lsp::parser;
use tekton_lsp::position::Position;
use tekton_lsp::workspace::WorkspaceIndex;

const PIPELINE: &str = "apiVersion: tekton.dev/v1\nkind: Pipeline\nmetadata:\n  name: main\nspec:\n  tasks:\n    - name: build\n      taskRef:\n        name: build-task";

fn create_provider_with_indexed_task() -> (DefinitionProvider, String) {
    let index = WorkspaceIndex::new();
    let mut provider = DefinitionProvider::new(index);
    let task_uri = "file:///tmp/tasks/build-task.yaml".to_string();
    let task_content = "apiVersion: tekton.dev/v1\nkind: Task\nmetadata:\n  name: build-task\nspec:\n  steps:\n    - name: compile\n      image: golang:1.21";
    provider.index_document(&task_uri, task_content).expect("Failed to index task");
    (provider, task_uri)
}

#[test]
fn test_goto_task_definition() {
    let mut index = WorkspaceIndex::new();
    let task_uri = "file:///workspace/tasks/build.yaml".to_string();
    let task_content = "apiVersion: tekton.dev/v1\nkind: Task\nmetadata:\n  name: build-task\nspec:\n  steps:\n    - image: golang";
    index.index_document(&task_uri, task_content).unwrap();

    let pipeline_doc = parser::parse_yaml("pipeline.yaml", PIPELINE).unwrap();
    let provider = DefinitionProvider::new(index);
    let result = provider.provide_definition(&pipeline_doc, Position { line: 8, character: 14 });
    assert!(result.is_some(), "Should find definition for taskRef");
    let location = result.unwrap();
    assert_eq!(location.uri, task_uri);
    assert_eq!(location.range.start, Position { line: 3, character: 2 });
}

#[test]
fn test_goto_definition_not_on_ref() {
    let doc = parser::parse_yaml("pipeline.yaml", PIPELINE).unwrap();
    let provider = DefinitionProvider::new(WorkspaceIndex::new());
    let result = provider.provide_definition(&doc, Position { line: 3, character: 8 });
    assert!(result.is_none(), "Should not find definition outside of refs");
}

#[test]
fn test_goto_definition_task_not_found() {
    let content = "apiVersion: tekton.dev/v1\nkind: Pipeline\nmetadata:\n  name: main\nspec:\n  tasks:\n    - name: build\n      taskRef:\n        name: nonexistent-task";
    let doc = parser::parse_yaml("pipeline.yaml", content).unwrap();
    let provider = DefinitionProvider::new(WorkspaceIndex::new());
    let result = provider.provide_definition(&doc, Position { line: 8, character: 14 });
    assert!(result.is_none(), "Should not find definition for nonexistent task");
}

#[test]
fn test_goto_task_definition_from_pipeline() {
    let (provider, task_uri) = create_provider_with_indexed_task();
    let content = "apiVersion: tekton.dev/v1\nkind: Pipeline\nmetadata:\n  name: main-pipeline\nspec:\n  tasks:\n    - name: build\n      taskRef:\n        name: build-task";
    let yaml_doc = parser::parse_yaml("file:///tmp/pipelines/main.yaml", content).expect("Failed to parse pipeline");
    let definition = provider.provide_definition(&yaml_doc, Position { line: 8, character: 14 });
    assert!(definition.is_some(), "Should find definition for task reference");
    assert_eq!(definition.unwrap().uri, task_uri);
}

#[test]
fn test_goto_definition_task_not_indexed() {
    let provider = DefinitionProvider::new(WorkspaceIndex::new());
    let content = "apiVersion: tekton.dev/v1\nkind: Pipeline\nmetadata:\n  name: main-pipeline\nspec:\n  tasks:\n    - name: build\n      taskRef:\n        name: unknown-task";
    let yaml_doc = parser::parse_yaml("file:///tmp/pipelines/main.yaml", content).expect("Failed to parse pipeline");
    let definition = provider.provide_definition(&yaml_doc, Position { line: 8, character: 14 });
    assert!(definition.is_none(), "Should not find definition for unknown task");
}

#[test]
fn test_goto_definition_not_on_task_ref() {
    let (provider, _) = create_provider_with_indexed_task();
    let content = "apiVersion: tekton.dev/v1\nkind: Pipeline\nmetadata:\n  name: main-pipeline\nspec:\n  tasks:\n    - name: build\n      taskRef:\n        name: build-task";
    let yaml_doc = parser::parse_yaml("file:///tmp/pipelines/main.yaml", content).expect("Failed to parse pipeline");
    let definition = provider.provide_definition(&yaml_doc, Position { line: 1, character: 7 });
    assert!(definition.is_none(), "Should not provide definition when not on a reference");
}

#[test]
fn test_workspace_index_multiple_tasks() {
    let mut provider = DefinitionProvider::new(WorkspaceIndex::new());
    let task = |name: &str| format!("apiVersion: tekton.dev/v1\nkind: Task\nmetadata:\n  name: {}\nspec:\n  steps:\n    - name: step1\n      image: alpine", name);
    provider.index_document("file:///tmp/tasks/task1.yaml", &task("task-one")).expect("Failed to index task1");
    provider.index_document("file:///tmp/tasks/task2.yaml", &task("task-two")).expect("Failed to index task2");
    let content = "apiVersion: tekton.dev/v1\nkind: Pipeline\nmetadata:\n  name: main-pipeline\nspec:\n  tasks:\n    - name: first\n      taskRef:\n        name: task-two";
    let yaml_doc = parser::parse_yaml("file:///tmp/pipelines/main.yaml", content).expect("Failed to parse pipeline");
    let definition = provider.provide_definition(&yaml_doc, Position { line: 8, character: 14 });
    assert!(definition.is_some(), "Should find task-two definition");
    assert_eq!(definition.unwrap().uri, "file:///tmp/tasks/task2.yaml");
}

#[test]
fn pipeline_run_reference_resolves_to_pipeline() {
    let mut provider = DefinitionProvider::new(WorkspaceIndex::new());
    provider.index_document("p.yaml", PIPELINE).unwrap();
    let run = "kind: PipelineRun\nmetadata:\n  name: r\nspec:\n  pipelineRef:\n    name: main\n";
    let doc = parser::parse_yaml("r.yaml", run).unwrap();
    let loc = provider.provide_definition(&doc, Position { line: 5, character: 11 }).unwrap();
    assert_eq!(loc.uri, "p.yaml");
    provider.remove_document("p.yaml");
    assert!(provider.provide_definition(&doc, Position { line: 5, character: 11 }).is_none());
}

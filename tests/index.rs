use tekton_lsp::workspace::WorkspaceIndex;

fn make_test_uri(path: &str) -> String {
    format!("file://{}", path)
}

#[test]
fn test_index_task_resource() {
    let mut index = WorkspaceIndex::new();

    let uri = make_test_uri("/workspace/tasks/build.yaml");
    let content = r#"apiVersion: tekton.dev/v1
kind: Task
metadata:
  name: build-task
spec:
  steps:
    - image: golang"#;

    index.index_document(&uri, content).unwrap();

    let resource = index.find_resource("Task", "build-task");
    assert!(resource.is_some(), "Task should be found in index");

    let resource = resource.unwrap();
    assert_eq!(resource.name, "build-task");
    assert_eq!(resource.kind, "Task");
    assert_eq!(resource.uri, uri);
}

#[test]
fn test_index_pipeline_resource() {
    let mut index = WorkspaceIndex::new();

    let uri = make_test_uri("/workspace/pipelines/main.yaml");
    let content = r#"apiVersion: tekton.dev/v1
kind: Pipeline
metadata:
  name: main-pipeline
spec:
  tasks:
    - name: build
      taskRef:
        name: build-task"#;

    index.index_document(&uri, content).unwrap();

    let resource = index.find_resource("Pipeline", "main-pipeline");
    assert!(resource.is_some(), "Pipeline should be found in index");

    let resource = resource.unwrap();
    assert_eq!(resource.name, "main-pipeline");
    assert_eq!(resource.kind, "Pipeline");
}

#[test]
fn test_find_task_references() {
    let mut index = WorkspaceIndex::new();

    let task_uri = make_test_uri("/workspace/tasks/build.yaml");
    let task_content = r#"apiVersion: tekton.dev/v1
kind: Task
metadata:
  name: build-task"#;
    index.index_document(&task_uri, task_content).unwrap();

    let pipeline_uri = make_test_uri("/workspace/pipelines/main.yaml");
    let pipeline_content = r#"apiVersion: tekton.dev/v1
kind: Pipeline
metadata:
  name: main-pipeline
spec:
  tasks:
    - name: build
      taskRef:
        name: build-task"#;
    index.index_document(&pipeline_uri, pipeline_content).unwrap();

    let refs = index.find_references("Task", "build-task");
    assert!(!refs.is_empty(), "Should find references to build-task");
    assert_eq!(refs.len(), 1);
    assert_eq!(refs[0].uri, pipeline_uri);
    assert_eq!(refs[0].ref_name, "build-task");
}

#[test]
fn test_remove_document() {
    let mut index = WorkspaceIndex::new();

    let uri = make_test_uri("/workspace/tasks/build.yaml");
    let content = r#"apiVersion: tekton.dev/v1
kind: Task
metadata:
  name: build-task"#;

    index.index_document(&uri, content).unwrap();
    assert!(index.find_resource("Task", "build-task").is_some());

    index.remove_document(&uri);
    assert!(index.find_resource("Task", "build-task").is_none());
}

#[test]
fn test_reindex_document() {
    let mut index = WorkspaceIndex::new();

    let uri = make_test_uri("/workspace/tasks/build.yaml");

    let content1 = r#"apiVersion: tekton.dev/v1
kind: Task
metadata:
  name: build-task-v1"#;
    index.index_document(&uri, content1).unwrap();
    assert!(index.find_resource("Task", "build-task-v1").is_some());

    let content2 = r#"apiVersion: tekton.dev/v1
kind: Task
metadata:
  name: build-task-v2"#;
    index.index_document(&uri, content2).unwrap();

    assert!(index.find_resource("Task", "build-task-v1").is_none());
    assert!(index.find_resource("Task", "build-task-v2").is_some());
}

#[test]
fn definition_location_is_the_name_field() {
    let mut index = WorkspaceIndex::new();
    let uri = "file:///t.yaml";
    index.index_document(uri, "apiVersion: tekton.dev/v1\nkind: Task\nmetadata:\n  name: build-task\n").unwrap();
    let d = index.find_resource("Task", "build-task").unwrap();
    assert_eq!(d.location.uri, uri);
    assert_eq!(d.location.range.start.line, 3);
    assert_eq!(d.location.range.start.character, 2);
    assert_eq!(d.location.range.end.line, 3);
    assert_eq!(d.location.range.end.character, 18);
    assert_eq!(d.api_version.as_deref(), Some("tekton.dev/v1"));
}

#[test]
fn removal_twice_is_removal_once() {
    let mut index = WorkspaceIndex::new();
    index.index_document("a", "kind: Task\nmetadata:\n  name: x\n").unwrap();
    index.index_document("b", "kind: Pipeline\nmetadata:\n  name: p\nspec:\n  tasks:\n    - name: t\n      taskRef:\n        name: x\n").unwrap();
    index.remove_document("a");
    let once_defs = index.all_resources().len();
    let once_refs = index.find_references("Task", "x").len();
    index.remove_document("a");
    assert_eq!(index.all_resources().len(), once_defs);
    assert_eq!(index.find_references("Task", "x").len(), once_refs);
    assert!(index.find_resource("Task", "x").is_none());
    assert!(index.find_resource("Pipeline", "p").is_some());
    index.remove_document("never-indexed");
    assert_eq!(index.all_resources().len(), 1);
}

#[test]
fn removed_document_definition_is_absent() {
    let mut index = WorkspaceIndex::new();
    index.index_document("A", "kind: Task\nmetadata:\n  name: x\n").unwrap();
    index.remove_document("A");
    assert!(index.find_resource("Task", "x").is_none());
}

#[test]
fn reindex_drops_old_references() {
    let mut index = WorkspaceIndex::new();
    let first = "kind: Pipeline\nmetadata:\n  name: p\nspec:\n  tasks:\n    - name: a\n      taskRef:\n        name: t1\n";
    let second = "kind: Pipeline\nmetadata:\n  name: p\nspec:\n  tasks:\n    - name: a\n      taskRef:\n        name: t2\n";
    index.index_document("p", first).unwrap();
    assert_eq!(index.find_references("Task", "t1").len(), 1);
    index.index_document("p", second).unwrap();
    assert!(index.find_references("Task", "t1").is_empty());
    assert_eq!(index.find_references("Task", "t2").len(), 1);
}

#[test]
fn references_keep_kind_finally_and_pipeline_runs() {
    let mut index = WorkspaceIndex::new();
    let p = "kind: Pipeline\nmetadata:\n  name: p\nspec:\n  tasks:\n    - name: a\n      taskRef:\n        name: t\n        kind: ClusterTask\n  finally:\n    - name: f\n      taskRef:\n        name: t\n";
    index.index_document("p", p).unwrap();
    assert_eq!(index.find_references("ClusterTask", "t").len(), 1);
    assert_eq!(index.find_references("Task", "t").len(), 1);
    let run = "kind: PipelineRun\nmetadata:\n  name: r\nspec:\n  pipelineRef:\n    name: p\n";
    index.index_document("r", run).unwrap();
    let refs = index.find_references("Pipeline", "p");
    assert_eq!(refs.len(), 1);
    assert_eq!(refs[0].uri, "r");
    assert_eq!(refs[0].ref_kind, "Pipeline");
}

#[test]
fn references_from_two_documents_in_order() {
    let mut index = WorkspaceIndex::new();
    let p = |n: &str| format!("kind: Pipeline\nmetadata:\n  name: {}\nspec:\n  tasks:\n    - name: a\n      taskRef:\n        name: t\n", n);
    index.index_document("one", &p("alpha")).unwrap();
    index.index_document("two", &p("beta")).unwrap();
    let refs = index.find_references("Task", "t");
    assert_eq!(refs.len(), 2);
    assert_eq!(refs[0].uri, "one");
    assert_eq!(refs[1].uri, "two");
    index.remove_document("one");
    let refs = index.find_references("Task", "t");
    assert_eq!(refs.len(), 1);
    assert_eq!(refs[0].uri, "two");
}

#[test]
fn later_definition_shadows_earlier() {
    let mut index = WorkspaceIndex::new();
    index.index_document("a", "kind: Task\nmetadata:\n  name: x\n").unwrap();
    index.index_document("b", "kind: Task\nmetadata:\n  name: x\n").unwrap();
    assert_eq!(index.find_resource("Task", "x").unwrap().uri, "b");
    assert_eq!(index.all_resources().len(), 1);
}

#[test]
fn removing_a_document_keeps_another_documents_definition() {
    let mut index = WorkspaceIndex::new();
    index.index_document("A", "kind: Task\nmetadata:\n  name: x\n").unwrap();
    index.index_document("B", "kind: Task\nmetadata:\n  name: x\n").unwrap();
    index.remove_document("A");
    let d = index.find_resource("Task", "x").expect("B's definition stays");
    assert_eq!(d.uri, "B");
}

#[test]
fn pipeline_ref_with_kind_is_filed_under_it() {
    let mut index = WorkspaceIndex::new();
    let run = "kind: PipelineRun\nmetadata:\n  name: r\nspec:\n  pipelineRef:\n    name: p\n    kind: CustomPipeline\n";
    index.index_document("r", run).unwrap();
    assert_eq!(index.find_references("CustomPipeline", "p").len(), 1);
    assert!(index.find_references("Pipeline", "p").is_empty());
}

#[test]
fn document_without_name_declares_nothing() {
    let mut index = WorkspaceIndex::new();
    index.index_document("a", "kind: Task\nmetadata:\n  labels: {}\n").unwrap();
    assert!(index.all_resources().is_empty());
}

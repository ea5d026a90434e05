use tekton_lsp::completion::{CompletionProvider, FieldType, TektonSchemas};

#[test]
fn schema_tables() {
    let s = TektonSchemas::new();
    let names: Vec<&str> = s.get_metadata_fields().iter().map(|f| f.name.as_str()).collect();
    assert_eq!(names, vec!["name", "namespace", "labels", "annotations"]);
    assert_eq!(s.get_pipeline_spec_fields()[0].name, "tasks");
    assert!(s.get_pipeline_spec_fields()[0].required);
    assert_eq!(s.get_pipeline_task_fields().len(), 6);
    assert_eq!(s.get_task_spec_fields()[4].name, "volumes");
    let step = &s.get_step_fields()[3];
    assert_eq!(step.name, "command");
    assert_eq!(step.field_type, FieldType::Array);
    assert_eq!(step.description, "Container entrypoint");
    let _ = CompletionProvider::new();
}

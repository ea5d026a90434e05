use tekton_lsp::actions::CodeActionsProvider;
use tekton_lsp::position::{Position, Range};

fn line_range(line: u32) -> Range {
    Range { start: Position { line, character: 0 }, end: Position { line, character: 10 } }
}

#[test]
fn test_extract_field_name() {
    let provider = CodeActionsProvider::new();

    assert_eq!(
        provider.extract_field_name("Missing required field 'metadata'", "Missing required field"),
        Some("metadata".to_string())
    );

    assert_eq!(provider.extract_field_name("Unknown field 'foo' in spec", "Unknown field"), Some("foo".to_string()));

    assert_eq!(provider.extract_field_name("No field here", "Missing"), None);
}

#[test]
fn test_add_missing_field_action() {
    let provider = CodeActionsProvider::new();
    let fix = provider.action_for_diagnostic("Missing required field 'metadata'", line_range(0)).expect("Expected CodeAction");
    assert!(fix.title.contains("Add missing field"));
    assert!(fix.title.contains("metadata"));
    assert!(fix.new_text.contains("metadata:"));
    assert!(fix.new_text.contains("name:"));
    assert_eq!(fix.range.start, Position { line: 1, character: 0 });
    assert_eq!(fix.range.end, Position { line: 1, character: 0 });
}

#[test]
fn test_remove_unknown_field_action() {
    let provider = CodeActionsProvider::new();
    let fix = provider.action_for_diagnostic("Unknown field 'foo' in Task spec", line_range(5)).expect("Expected CodeAction");
    assert!(fix.title.contains("Remove unknown field"));
    assert!(fix.title.contains("foo"));
    assert_eq!(fix.new_text, "");
    assert_eq!(fix.range.start, Position { line: 5, character: 0 });
    assert_eq!(fix.range.end, Position { line: 6, character: 0 });
}

#[test]
fn provider_test_no_action_for_unhandled_diagnostic() {
    let provider = CodeActionsProvider::new();
    assert!(provider.action_for_diagnostic("Some other error", line_range(0)).is_none());
}

#[test]
fn test_multiple_diagnostics() {
    let provider = CodeActionsProvider::new();
    let messages = ["Missing required field 'spec'", "Unknown field 'bar'"];
    let fixes: Vec<_> = messages.iter().filter_map(|m| provider.action_for_diagnostic(m, line_range(0))).collect();
    assert_eq!(fixes.len(), 2);
}

#[test]
fn test_quick_fix_for_missing_steps() {
    let provider = CodeActionsProvider::new();
    let fix = provider.action_for_diagnostic("Missing required field 'steps'", line_range(10)).expect("Expected CodeAction");
    assert!(fix.new_text.contains("steps:"), "Edit should add steps");
    assert!(fix.new_text.contains("name:"), "Edit should add step with name");
    assert!(fix.new_text.contains("image:"), "Edit should add step with image");
}

#[test]
fn test_quick_fix_for_missing_spec() {
    let provider = CodeActionsProvider::new();
    let fix = provider.action_for_diagnostic("Missing required field 'spec'", line_range(10)).expect("Expected CodeAction");
    assert!(fix.title.contains("spec"));
    assert!(fix.new_text.contains("spec:"), "Edit should add spec");
    assert!(fix.new_text.contains("steps:"), "Edit should add steps template");
}

#[test]
fn field_templates() {
    let provider = CodeActionsProvider::new();
    assert_eq!(provider.get_field_template("image"), "      image: alpine\n");
    assert_eq!(provider.get_field_template("labels"), "  labels: \n");
    assert_eq!(provider.get_field_template("metadata"), "metadata:\n  name: \n");
}

#[test]
fn unquoted_field_name_gives_no_fix() {
    let provider = CodeActionsProvider::new();
    assert!(provider.action_for_diagnostic("Missing required field metadata", line_range(0)).is_none());
    assert_eq!(provider.extract_field_name("Unknown field 'open", "Unknown field"), None);
    assert_eq!(provider.extract_field_name("x '' y", ""), Some(String::new()));
}

#[test]
fn test_quick_fix_for_missing_metadata() {
    let provider = CodeActionsProvider::new();
    let r = Range { start: Position { line: 0, character: 0 }, end: Position { line: 0, character: 10 } };
    let fix = provider.action_for_diagnostic("Missing required field 'metadata'", r).expect("Expected CodeAction");
    assert!(fix.title.contains("Add missing field"), "Title should mention adding field");
    assert!(fix.title.contains("metadata"), "Title should mention metadata");
    assert!(fix.new_text.contains("metadata:"), "Edit should add metadata");
    assert!(fix.new_text.contains("name:"), "Edit should add name under metadata");
}

#[test]
fn test_quick_fix_for_unknown_field() {
    let provider = CodeActionsProvider::new();
    let r = Range { start: Position { line: 15, character: 4 }, end: Position { line: 15, character: 16 } };
    let fix = provider.action_for_diagnostic("Unknown field 'unknownField' in Task spec", r).expect("Expected CodeAction");
    assert!(fix.title.contains("Remove unknown field"), "Title should mention removing field");
    assert!(fix.title.contains("unknownField"), "Title should mention field name");
    assert_eq!(fix.range.start, Position { line: 15, character: 0 });
    assert_eq!(fix.range.end, Position { line: 16, character: 0 });
    assert!(fix.new_text.is_empty(), "Remove action should delete the line");
}

#[test]
fn test_multiple_diagnostics_multiple_actions() {
    let provider = CodeActionsProvider::new();
    let messages = ["Missing required field 'metadata'", "Unknown field 'foo'", "Missing required field 'steps'"];
    let fixes: Vec<_> = messages.iter().filter_map(|m| provider.action_for_diagnostic(m, line_range(10))).collect();
    assert_eq!(fixes.len(), 3, "Should return action for each diagnostic");
}

#[test]
fn e2e_codeactions_test_no_action_for_unhandled_diagnostic() {
    let provider = CodeActionsProvider::new();
    let r = Range { start: Position { line: 10, character: 0 }, end: Position { line: 10, character: 20 } };
    assert!(provider.action_for_diagnostic("Type mismatch: expected string", r).is_none(), "Should not provide action for unhandled diagnostic");
}

#[test]
fn test_action_has_correct_diagnostics_reference() {
    let provider = CodeActionsProvider::new();
    let diagnostics = vec![
        ("Some other error".to_string(), line_range(3)),
        ("Missing required field 'name'".to_string(), line_range(10)),
    ];
    let fixes = provider.provide_actions(&diagnostics);
    assert_eq!(fixes.len(), 1, "Should have diagnostics");
    assert_eq!(fixes[0].0, 1);
    assert_eq!(diagnostics[fixes[0].0].0, "Missing required field 'name'");
    assert_eq!(fixes[0].1.new_text, "  name: \n");
    assert_eq!(fixes[0].1.range.start, Position { line: 11, character: 0 });
}

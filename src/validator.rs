//! Structural checks of Tekton resources.

use vstd::prelude::*;
use crate::ast::{opt_chars, spec_get, Node, NodeValue, YamlDocument};
use crate::position::Range;
use crate::text::str_eq;

verus! {

/// A problem found in a resource; each one is an error.
#[derive(Debug, Clone)]
pub struct ValidationIssue {
    pub range: Range,
    pub message: String,
}

pub open spec fn issue_view(i: ValidationIssue) -> (Range, Seq<char>) {
    (i.range, i.message@)
}

pub open spec fn issue_views(s: Seq<ValidationIssue>) -> Seq<(Range, Seq<char>)> {
    s.map_values(|i: ValidationIssue| issue_view(i))
}

/// A `metadata` section without a `name` is reported over its range.
pub open spec fn metadata_issues(root: Node) -> Seq<(Range, Seq<char>)> {
    match spec_get(root, "metadata"@) {
        Some(meta) => if spec_get(meta, "name"@) is None {
            seq![(meta.range, "Required field 'metadata.name' is missing"@)]
        } else {
            Seq::empty()
        },
        None => Seq::empty(),
    }
}

/// In a pipeline, `spec.tasks` must be a non-empty sequence.
pub open spec fn pipeline_issues(root: Node) -> Seq<(Range, Seq<char>)> {
    match spec_get(root, "spec"@) {
        Some(spec) => match spec_get(spec, "tasks"@) {
            Some(tasks) => match tasks.value {
                NodeValue::Sequence(items) => if items@.len() == 0 {
                    seq![(tasks.range, "Pipeline must have at least one task"@)]
                } else {
                    Seq::empty()
                },
                _ => seq![(tasks.range, "Field 'tasks' must be an array"@)],
            },
            None => Seq::empty(),
        },
        None => Seq::empty(),
    }
}

/// All issues of a document: those of its metadata, then, for a pipeline,
/// those of its tasks.
pub open spec fn document_issues(root: Node, kind: Option<Seq<char>>) -> Seq<(Range, Seq<char>)> {
    metadata_issues(root) + if kind == Some("Pipeline"@) {
        pipeline_issues(root)
    } else {
        Seq::empty()
    }
}

fn push_issue(out: &mut Vec<ValidationIssue>, range: Range, message: &str)
    ensures
        issue_views(final(out)@) == issue_views(old(out)@).push((range, message@)),
{
    out.push(ValidationIssue { range, message: message.to_owned() });
    assert(issue_views(out@) =~= issue_views(old(out)@).push((range, message@)));
}

/// Checks Tekton resources.
#[derive(Debug, Clone, Default)]
pub struct TektonValidator;

impl TektonValidator {
    pub fn new() -> Self {
        TektonValidator
    }

    /// The issues found in a document.
    pub fn validate(&self, doc: &YamlDocument) -> (r: Vec<ValidationIssue>)
        ensures
            issue_views(r@) == document_issues(doc.root, opt_chars(doc.kind)),
    {
        let mut out: Vec<ValidationIssue> = Vec::new();
        if let Some(meta) = doc.root.get("metadata") {
            if meta.get("name").is_none() {
                push_issue(&mut out, meta.range, "Required field 'metadata.name' is missing");
            }
        }
        assert(issue_views(out@) =~= metadata_issues(doc.root));
        let is_pipeline = match &doc.kind {
            Some(k) => str_eq(k.as_str(), "Pipeline"),
            None => false,
        };
        if is_pipeline {
            self.validate_pipeline(&doc.root, &mut out);
        } else {
            assert(issue_views(out@) =~= metadata_issues(doc.root) + Seq::<(Range, Seq<char>)>::empty());
        }
        out
    }

    /// Appends the issues of a pipeline's tasks.
    pub fn validate_pipeline(&self, root: &Node, out: &mut Vec<ValidationIssue>)
        ensures
            issue_views(final(out)@) == issue_views(old(out)@) + pipeline_issues(*root),
    {
        let ghost start = issue_views(out@);
        assert(start + Seq::<(Range, Seq<char>)>::empty() =~= start);
        if let Some(spec_node) = root.get("spec") {
            if let Some(tasks) = spec_node.get("tasks") {
                match &tasks.value {
                    NodeValue::Sequence(items) => {
                        if items.len() == 0 {
                            push_issue(out, tasks.range, "Pipeline must have at least one task");
                        }
                    },
                    _ => {
                        push_issue(out, tasks.range, "Field 'tasks' must be an array");
                    },
                }
                assert(issue_views(out@) =~= start + pipeline_issues(*root));
            }
        }
    }
}

} // verus!

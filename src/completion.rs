//! The fields that completion offers in each part of a Tekton resource.

use vstd::prelude::*;
use crate::ast::{opt_chars, Node, NodeValue, YamlDocument};
use crate::position::{position_in_range, spec_position_in_range, Position};
use crate::text::str_eq;

verus! {

/// One field that may be written at some place of a resource.
#[derive(Debug, Clone)]
pub struct FieldSchema {
    pub name: String,
    pub description: String,
    pub field_type: FieldType,
    pub required: bool,
}

/// The kind of value a field takes.
#[derive(Debug, Clone, Copy, PartialEq, Eq, Structural)]
pub enum FieldType {
    String,
    Array,
    Object,
    Boolean,
}

/// (name, description, type, required)
pub type FieldView = (Seq<char>, Seq<char>, FieldType, bool);

pub open spec fn field_view(f: FieldSchema) -> FieldView {
    (f.name@, f.description@, f.field_type, f.required)
}

pub open spec fn field_views(s: Seq<FieldSchema>) -> Seq<FieldView> {
    s.map_values(|f: FieldSchema| field_view(f))
}

/// The fields offered under `metadata`.
pub open spec fn metadata_table() -> Seq<FieldView> {
    seq![
        ("name"@, "Resource name (required)"@, FieldType::String, true),
        ("namespace"@, "Resource namespace"@, FieldType::String, false),
        ("labels"@, "Resource labels"@, FieldType::Object, false),
        ("annotations"@, "Resource annotations"@, FieldType::Object, false),
    ]
}

/// The fields offered under `pipeline_spec`.
pub open spec fn pipeline_spec_table() -> Seq<FieldView> {
    seq![
        ("tasks"@, "Pipeline tasks to execute"@, FieldType::Array, true),
        ("finally"@, "Tasks to run after all other tasks"@, FieldType::Array, false),
        ("params"@, "Pipeline parameters"@, FieldType::Array, false),
        ("workspaces"@, "Pipeline workspaces"@, FieldType::Array, false),
        ("results"@, "Pipeline results"@, FieldType::Array, false),
    ]
}

/// The fields offered under `pipeline_task`.
pub open spec fn pipeline_task_table() -> Seq<FieldView> {
    seq![
        ("name"@, "Task name (required)"@, FieldType::String, true),
        ("taskRef"@, "Reference to an existing Task"@, FieldType::Object, false),
        ("taskSpec"@, "Inline Task specification"@, FieldType::Object, false),
        ("params"@, "Task parameters"@, FieldType::Array, false),
        ("workspaces"@, "Workspace bindings"@, FieldType::Array, false),
        ("runAfter"@, "Tasks that must complete before this one"@, FieldType::Array, false),
    ]
}

/// The fields offered under `task_spec`.
pub open spec fn task_spec_table() -> Seq<FieldView> {
    seq![
        ("steps"@, "Task steps to execute"@, FieldType::Array, true),
        ("params"@, "Task parameters"@, FieldType::Array, false),
        ("workspaces"@, "Task workspaces"@, FieldType::Array, false),
        ("results"@, "Task results"@, FieldType::Array, false),
        ("volumes"@, "Kubernetes volumes"@, FieldType::Array, false),
    ]
}

/// The fields offered under `step`.
pub open spec fn step_table() -> Seq<FieldView> {
    seq![
        ("name"@, "Step name (required)"@, FieldType::String, true),
        ("image"@, "Container image (required)"@, FieldType::String, true),
        ("script"@, "Script to execute"@, FieldType::String, false),
        ("command"@, "Container entrypoint"@, FieldType::Array, false),
        ("args"@, "Container arguments"@, FieldType::Array, false),
        ("env"@, "Environment variables"@, FieldType::Array, false),
        ("workingDir"@, "Working directory"@, FieldType::String, false),
    ]
}

fn field(name: &str, description: &str, field_type: FieldType, required: bool) -> (r: FieldSchema)
    ensures
        field_view(r) == (name@, description@, field_type, required),
{
    FieldSchema { name: name.to_owned(), description: description.to_owned(), field_type, required }
}

fn metadata_fields() -> (r: Vec<FieldSchema>)
    ensures
        field_views(r@) == metadata_table(),
{
    let r = vec![
        field("name", "Resource name (required)", FieldType::String, true),
        field("namespace", "Resource namespace", FieldType::String, false),
        field("labels", "Resource labels", FieldType::Object, false),
        field("annotations", "Resource annotations", FieldType::Object, false),
    ];
    assert(field_views(r@) =~= metadata_table());
    r
}

fn pipeline_spec_fields() -> (r: Vec<FieldSchema>)
    ensures
        field_views(r@) == pipeline_spec_table(),
{
    let r = vec![
        field("tasks", "Pipeline tasks to execute", FieldType::Array, true),
        field("finally", "Tasks to run after all other tasks", FieldType::Array, false),
        field("params", "Pipeline parameters", FieldType::Array, false),
        field("workspaces", "Pipeline workspaces", FieldType::Array, false),
        field("results", "Pipeline results", FieldType::Array, false),
    ];
    assert(field_views(r@) =~= pipeline_spec_table());
    r
}

fn pipeline_task_fields() -> (r: Vec<FieldSchema>)
    ensures
        field_views(r@) == pipeline_task_table(),
{
    let r = vec![
        field("name", "Task name (required)", FieldType::String, true),
        field("taskRef", "Reference to an existing Task", FieldType::Object, false),
        field("taskSpec", "Inline Task specification", FieldType::Object, false),
        field("params", "Task parameters", FieldType::Array, false),
        field("workspaces", "Workspace bindings", FieldType::Array, false),
        field("runAfter", "Tasks that must complete before this one", FieldType::Array, false),
    ];
    assert(field_views(r@) =~= pipeline_task_table());
    r
}

fn task_spec_fields() -> (r: Vec<FieldSchema>)
    ensures
        field_views(r@) == task_spec_table(),
{
    let r = vec![
        field("steps", "Task steps to execute", FieldType::Array, true),
        field("params", "Task parameters", FieldType::Array, false),
        field("workspaces", "Task workspaces", FieldType::Array, false),
        field("results", "Task results", FieldType::Array, false),
        field("volumes", "Kubernetes volumes", FieldType::Array, false),
    ];
    assert(field_views(r@) =~= task_spec_table());
    r
}

fn step_fields() -> (r: Vec<FieldSchema>)
    ensures
        field_views(r@) == step_table(),
{
    let r = vec![
        field("name", "Step name (required)", FieldType::String, true),
        field("image", "Container image (required)", FieldType::String, true),
        field("script", "Script to execute", FieldType::String, false),
        field("command", "Container entrypoint", FieldType::Array, false),
        field("args", "Container arguments", FieldType::Array, false),
        field("env", "Environment variables", FieldType::Array, false),
        field("workingDir", "Working directory", FieldType::String, false),
    ];
    assert(field_views(r@) =~= step_table());
    r
}

/// The field tables of the resource parts that completion knows.
#[derive(Debug, Clone)]
pub struct TektonSchemas {
    metadata_fields: Vec<FieldSchema>,
    pipeline_spec_fields: Vec<FieldSchema>,
    pipeline_task_fields: Vec<FieldSchema>,
    task_spec_fields: Vec<FieldSchema>,
    step_fields: Vec<FieldSchema>,
}

impl TektonSchemas {
    pub closed spec fn metadata(&self) -> Seq<FieldSchema> {
        self.metadata_fields@
    }

    pub closed spec fn pipeline_spec(&self) -> Seq<FieldSchema> {
        self.pipeline_spec_fields@
    }

    pub closed spec fn pipeline_task(&self) -> Seq<FieldSchema> {
        self.pipeline_task_fields@
    }

    pub closed spec fn task_spec(&self) -> Seq<FieldSchema> {
        self.task_spec_fields@
    }

    pub closed spec fn step(&self) -> Seq<FieldSchema> {
        self.step_fields@
    }

    pub fn new() -> (r: Self)
        ensures
            field_views(r.metadata()) == metadata_table(),
            field_views(r.pipeline_spec()) == pipeline_spec_table(),
            field_views(r.pipeline_task()) == pipeline_task_table(),
            field_views(r.task_spec()) == task_spec_table(),
            field_views(r.step()) == step_table(),
    {
        TektonSchemas {
            metadata_fields: metadata_fields(),
            pipeline_spec_fields: pipeline_spec_fields(),
            pipeline_task_fields: pipeline_task_fields(),
            task_spec_fields: task_spec_fields(),
            step_fields: step_fields(),
        }
    }

    pub fn get_metadata_fields(&self) -> (r: &[FieldSchema])
        ensures
            r@ == self.metadata(),
    {
        self.metadata_fields.as_slice()
    }

    pub fn get_pipeline_spec_fields(&self) -> (r: &[FieldSchema])
        ensures
            r@ == self.pipeline_spec(),
    {
        self.pipeline_spec_fields.as_slice()
    }

    pub fn get_pipeline_task_fields(&self) -> (r: &[FieldSchema])
        ensures
            r@ == self.pipeline_task(),
    {
        self.pipeline_task_fields.as_slice()
    }

    pub fn get_task_spec_fields(&self) -> (r: &[FieldSchema])
        ensures
            r@ == self.task_spec(),
    {
        self.task_spec_fields.as_slice()
    }

    pub fn get_step_fields(&self) -> (r: &[FieldSchema])
        ensures
            r@ == self.step(),
    {
        self.step_fields.as_slice()
    }
}

impl Default for TektonSchemas {
    fn default() -> (r: Self)
        ensures
            field_views(r.metadata()) == metadata_table(),
            field_views(r.pipeline_spec()) == pipeline_spec_table(),
            field_views(r.pipeline_task()) == pipeline_task_table(),
            field_views(r.task_spec()) == task_spec_table(),
            field_views(r.step()) == step_table(),
    {
        TektonSchemas::new()
    }
}

impl Default for CompletionProvider {
    fn default() -> (r: Self)
        ensures
            field_views(r.schemas().metadata()) == metadata_table(),
            field_views(r.schemas().pipeline_spec()) == pipeline_spec_table(),
            field_views(r.schemas().pipeline_task()) == pipeline_task_table(),
            field_views(r.schemas().task_spec()) == task_spec_table(),
            field_views(r.schemas().step()) == step_table(),
    {
        CompletionProvider::new()
    }
}

/// The part of a resource that the cursor stands in.
#[derive(Debug, Clone, Copy, PartialEq, Eq, Structural)]
pub enum CompletionContext {
    Metadata,
    PipelineSpec,
    PipelineTask,
    TaskSpec,
    Step,
    Unknown,
}

/// How a suggested field is shown.
#[derive(Debug, Clone, Copy, PartialEq, Eq, Structural)]
pub enum CompletionKind {
    Field,
    Value,
    Struct,
}

/// A suggested field.
#[derive(Debug, Clone)]
pub struct CompletionItem {
    pub label: String,
    pub kind: CompletionKind,
    pub detail: String,
}

pub open spec fn key_is(n: Node, k: Seq<char>) -> bool {
    opt_chars(n.key) == Some(k)
}

/// Within a `spec` mapping, the context of the first entry (from the `i`th
/// on) that contains `pos` and is a task or step list.
pub open spec fn spec_list_context(items: Seq<Node>, pos: Position, i: int) -> CompletionContext
    decreases items.len() - i,
{
    if i < 0 || i >= items.len() {
        CompletionContext::Unknown
    } else if spec_position_in_range(pos, items[i].range) && (key_is(items[i], "tasks"@) || key_is(
        items[i],
        "finally"@,
    )) {
        CompletionContext::PipelineTask
    } else if spec_position_in_range(pos, items[i].range) && key_is(items[i], "steps"@) {
        CompletionContext::Step
    } else {
        spec_list_context(items, pos, i + 1)
    }
}

/// The context that a node's own key gives, if any.
pub open spec fn context_here(n: Node, pos: Position, doc_kind: Option<Seq<char>>) -> CompletionContext {
    if key_is(n, "metadata"@) {
        CompletionContext::Metadata
    } else if key_is(n, "spec"@) {
        let inner = match n.value {
            NodeValue::Mapping(items) => spec_list_context(items@, pos, 0),
            _ => CompletionContext::Unknown,
        };
        if inner != CompletionContext::Unknown {
            inner
        } else if doc_kind == Some("Pipeline"@) {
            CompletionContext::PipelineSpec
        } else if doc_kind == Some("Task"@) {
            CompletionContext::TaskSpec
        } else {
            CompletionContext::Unknown
        }
    } else if key_is(n, "tasks"@) || key_is(n, "finally"@) {
        CompletionContext::PipelineTask
    } else if key_is(n, "steps"@) {
        CompletionContext::Step
    } else {
        CompletionContext::Unknown
    }
}

/// The context that a depth-first search for `pos` finds: with `i < 0`, in
/// the whole subtree of `n` (`n` itself first); with `i >= 0`, among the
/// subtrees of the children of `n` from the `i`th on.
pub open spec fn context_at(n: Node, pos: Position, doc_kind: Option<Seq<char>>, i: int) -> CompletionContext
    decreases n, match n.value {
        NodeValue::Mapping(items) => items@.len() - i,
        NodeValue::Sequence(items) => items@.len() - i,
        _ => 0 - i,
    },
{
    if i < 0 {
        if !spec_position_in_range(pos, n.range) {
            CompletionContext::Unknown
        } else if context_here(n, pos, doc_kind) != CompletionContext::Unknown {
            context_here(n, pos, doc_kind)
        } else {
            context_at(n, pos, doc_kind, 0)
        }
    } else {
        match n.value {
            NodeValue::Mapping(items) => if i >= items@.len() {
                CompletionContext::Unknown
            } else if context_at(items@[i], pos, doc_kind, -1) != CompletionContext::Unknown {
                context_at(items@[i], pos, doc_kind, -1)
            } else {
                context_at(n, pos, doc_kind, i + 1)
            },
            NodeValue::Sequence(items) => if i >= items@.len() {
                CompletionContext::Unknown
            } else if context_at(items@[i], pos, doc_kind, -1) != CompletionContext::Unknown {
                context_at(items@[i], pos, doc_kind, -1)
            } else {
                context_at(n, pos, doc_kind, i + 1)
            },
            _ => CompletionContext::Unknown,
        }
    }
}

/// The field table of a context.
pub open spec fn context_table(c: CompletionContext) -> Seq<FieldView> {
    match c {
        CompletionContext::Metadata => metadata_table(),
        CompletionContext::PipelineSpec => pipeline_spec_table(),
        CompletionContext::PipelineTask => pipeline_task_table(),
        CompletionContext::TaskSpec => task_spec_table(),
        CompletionContext::Step => step_table(),
        CompletionContext::Unknown => Seq::empty(),
    }
}

pub open spec fn completion_kind(t: FieldType) -> CompletionKind {
    match t {
        FieldType::String => CompletionKind::Field,
        FieldType::Array => CompletionKind::Value,
        FieldType::Object => CompletionKind::Struct,
        FieldType::Boolean => CompletionKind::Value,
    }
}

/// (label, kind, detail)
pub open spec fn item_view(i: CompletionItem) -> (Seq<char>, CompletionKind, Seq<char>) {
    (i.label@, i.kind, i.detail@)
}

pub open spec fn item_views(s: Seq<CompletionItem>) -> Seq<(Seq<char>, CompletionKind, Seq<char>)> {
    s.map_values(|i: CompletionItem| item_view(i))
}

/// The suggestion for a field of a table.
pub open spec fn suggestion(f: FieldView) -> (Seq<char>, CompletionKind, Seq<char>) {
    (f.0, completion_kind(f.2), f.1)
}

fn list_context(items: &Vec<Node>, position: Position) -> (r: CompletionContext)
    ensures
        r == spec_list_context(items@, position, 0),
{
    let mut i: usize = 0;
    while i < items.len()
        invariant
            i <= items@.len(),
            spec_list_context(items@, position, 0) == spec_list_context(items@, position, i as int),
        decreases items@.len() - i,
    {
        let child = &items[i];
        if position_in_range(position, child.range) {
            if let Some(k) = &child.key {
                if str_eq(k.as_str(), "tasks") || str_eq(k.as_str(), "finally") {
                    return CompletionContext::PipelineTask;
                }
                if str_eq(k.as_str(), "steps") {
                    return CompletionContext::Step;
                }
            }
        }
        i = i + 1;
    }
    CompletionContext::Unknown
}

fn context_of_key(node: &Node, position: Position, doc_kind: &Option<String>) -> (r: CompletionContext)
    ensures
        r == context_here(*node, position, opt_chars(*doc_kind)),
{
    let key = match &node.key {
        Some(k) => k,
        None => return CompletionContext::Unknown,
    };
    if str_eq(key.as_str(), "metadata") {
        return CompletionContext::Metadata;
    }
    if str_eq(key.as_str(), "spec") {
        let inner = match &node.value {
            NodeValue::Mapping(items) => list_context(items, position),
            _ => CompletionContext::Unknown,
        };
        if inner != CompletionContext::Unknown {
            return inner;
        }
        return match doc_kind {
            Some(k) => if str_eq(k.as_str(), "Pipeline") {
                CompletionContext::PipelineSpec
            } else if str_eq(k.as_str(), "Task") {
                CompletionContext::TaskSpec
            } else {
                CompletionContext::Unknown
            },
            None => CompletionContext::Unknown,
        };
    }
    if str_eq(key.as_str(), "tasks") || str_eq(key.as_str(), "finally") {
        return CompletionContext::PipelineTask;
    }
    if str_eq(key.as_str(), "steps") {
        return CompletionContext::Step;
    }
    CompletionContext::Unknown
}

/// The context at `position`: the first one a depth-first search finds,
/// parents before children.
pub fn find_completion_context(node: &Node, position: Position, doc_kind: &Option<String>) -> (r: CompletionContext)
    ensures
        r == context_at(*node, position, opt_chars(*doc_kind), -1),
    decreases node,
{
    if !position_in_range(position, node.range) {
        return CompletionContext::Unknown;
    }
    let here = context_of_key(node, position, doc_kind);
    if here != CompletionContext::Unknown {
        return here;
    }
    let items = match &node.value {
        NodeValue::Mapping(items) => items,
        NodeValue::Sequence(items) => items,
        _ => {
            assert(context_at(*node, position, opt_chars(*doc_kind), 0) == CompletionContext::Unknown);
            return CompletionContext::Unknown;
        },
    };
    let ghost k = opt_chars(*doc_kind);
    let mut i: usize = 0;
    while i < items.len()
        invariant
            i <= items@.len(),
            match node.value {
                NodeValue::Mapping(v) => v == *items,
                NodeValue::Sequence(v) => v == *items,
                _ => false,
            },
            context_at(*node, position, k, 0) == context_at(*node, position, k, i as int),
            context_here(*node, position, k) == CompletionContext::Unknown,
            spec_position_in_range(position, node.range),
            k == opt_chars(*doc_kind),
        decreases items@.len() - i,
    {
        let child = &items[i];
        let c = find_completion_context(child, position, doc_kind);
        assert(context_at(*node, position, k, i as int) == if context_at(items@[i as int], position, k, -1)
            != CompletionContext::Unknown {
            context_at(items@[i as int], position, k, -1)
        } else {
            context_at(*node, position, k, i + 1)
        });
        if c != CompletionContext::Unknown {
            return c;
        }
        i = i + 1;
    }
    CompletionContext::Unknown
}

/// Offers the fields that may be written where the cursor stands.
#[derive(Debug)]
pub struct CompletionProvider {
    schemas: TektonSchemas,
}

impl CompletionProvider {
    #[verifier::type_invariant]
    closed spec fn inv(self) -> bool {
        &&& field_views(self.schemas.metadata()) == metadata_table()
        &&& field_views(self.schemas.pipeline_spec()) == pipeline_spec_table()
        &&& field_views(self.schemas.pipeline_task()) == pipeline_task_table()
        &&& field_views(self.schemas.task_spec()) == task_spec_table()
        &&& field_views(self.schemas.step()) == step_table()
    }

    pub closed spec fn schemas(&self) -> TektonSchemas {
        self.schemas
    }

    pub fn new() -> (r: Self)
        ensures
            field_views(r.schemas().metadata()) == metadata_table(),
            field_views(r.schemas().pipeline_spec()) == pipeline_spec_table(),
            field_views(r.schemas().pipeline_task()) == pipeline_task_table(),
            field_views(r.schemas().task_spec()) == task_spec_table(),
            field_views(r.schemas().step()) == step_table(),
    {
        CompletionProvider { schemas: TektonSchemas::new() }
    }

    /// The field table of a context.
    pub fn get_fields_for_context(&self, context: CompletionContext) -> (r: &[FieldSchema])
        ensures
            field_views(r@) == context_table(context),
    {
        proof { use_type_invariant(self); }
        match context {
            CompletionContext::Metadata => self.schemas.get_metadata_fields(),
            CompletionContext::PipelineSpec => self.schemas.get_pipeline_spec_fields(),
            CompletionContext::PipelineTask => self.schemas.get_pipeline_task_fields(),
            CompletionContext::TaskSpec => self.schemas.get_task_spec_fields(),
            CompletionContext::Step => self.schemas.get_step_fields(),
            CompletionContext::Unknown => {
                let r: &[FieldSchema] = &[];
                assert(field_views(r@) =~= Seq::<FieldView>::empty());
                r
            },
        }
    }

    /// The suggestion for a field.
    pub fn field_to_completion_item(&self, field: &FieldSchema) -> (r: CompletionItem)
        ensures
            item_view(r) == suggestion(field_view(*field)),
    {
        let kind = match field.field_type {
            FieldType::String => CompletionKind::Field,
            FieldType::Array => CompletionKind::Value,
            FieldType::Object => CompletionKind::Struct,
            FieldType::Boolean => CompletionKind::Value,
        };
        CompletionItem { label: field.name.clone(), kind, detail: field.description.clone() }
    }

    /// The fields that may be written at `position`.
    pub fn provide_completions(&self, doc: &YamlDocument, position: Position) -> (r: Vec<CompletionItem>)
        ensures
            item_views(r@) == context_table(context_at(doc.root, position, opt_chars(doc.kind), -1)).map_values(
                |f: FieldView| suggestion(f),
            ),
    {
        let context = find_completion_context(&doc.root, position, &doc.kind);
        let fields = self.get_fields_for_context(context);
        let ghost table = context_table(context);
        let mut out: Vec<CompletionItem> = Vec::new();
        let mut i: usize = 0;
        while i < fields.len()
            invariant
                i <= fields@.len(),
                field_views(fields@) == table,
                item_views(out@) == table.take(i as int).map_values(|f: FieldView| suggestion(f)),
            decreases fields@.len() - i,
        {
            let item = self.field_to_completion_item(&fields[i]);
            let ghost prev = out@;
            out.push(item);
            assert(table[i as int] == field_view(fields@[i as int]));
            assert(item_views(out@) =~= item_views(prev).push(item_view(item)));
            assert(table.take(i + 1).map_values(|f: FieldView| suggestion(f)) =~= table.take(i as int).map_values(
                |f: FieldView| suggestion(f),
            ).push(suggestion(table[i as int])));
            i = i + 1;
        }
        assert(table.take(i as int) =~= table);
        out
    }
}

} // verus!

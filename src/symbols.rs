//! The document outline: the resource, its metadata and spec sections, and
//! the named items of the spec's lists.

use vstd::prelude::*;
use crate::ast::{opt_chars, spec_get, spec_scalar, top_scalar, top_scalar_text, Node, NodeValue, YamlDocument};
use crate::position::Range;
use crate::text::str_eq;

verus! {

/// What an outline entry stands for.
#[derive(Debug, Clone, Copy, PartialEq, Eq, Structural)]
pub enum SymbolCategory {
    File,
    Module,
    Namespace,
    Class,
    Object,
    Interface,
    Property,
    Variable,
    Function,
    Array,
}

/// An outline entry.
#[derive(Debug)]
pub struct OutlineSymbol {
    pub name: String,
    pub detail: Option<String>,
    pub kind: SymbolCategory,
    pub range: Range,
    pub children: Option<Vec<OutlineSymbol>>,
}

/// An entry without its children: (name, detail, kind, range).
pub type SymbolHead = (Seq<char>, Option<Seq<char>>, SymbolCategory, Range);

pub open spec fn head(s: OutlineSymbol) -> SymbolHead {
    (s.name@, opt_chars(s.detail), s.kind, s.range)
}

pub open spec fn heads(v: Seq<OutlineSymbol>) -> Seq<SymbolHead> {
    v.map_values(|s: OutlineSymbol| head(s))
}

pub open spec fn child_heads(s: OutlineSymbol) -> Option<Seq<SymbolHead>> {
    match s.children {
        Some(v) => Some(heads(v@)),
        None => None,
    }
}

pub open spec fn digit(d: nat) -> char {
    if d == 0 { '0' } else if d == 1 { '1' } else if d == 2 { '2' } else if d == 3 { '3' } else if d == 4 {
        '4'
    } else if d == 5 { '5' } else if d == 6 { '6' } else if d == 7 { '7' } else if d == 8 { '8' } else { '9' }
}

/// The decimal digits of `n`.
pub open spec fn decimal(n: nat) -> Seq<char>
    decreases n,
{
    if n < 10 {
        seq![digit(n)]
    } else {
        decimal(n / 10).push(digit(n % 10))
    }
}

/// The decimal digits of `n`.
pub fn decimal_text(n: usize) -> (r: Vec<char>)
    ensures
        r@ == decimal(n as nat),
    decreases n,
{
    let d = n % 10;
    let c = if d == 0 { '0' } else if d == 1 { '1' } else if d == 2 { '2' } else if d == 3 { '3' } else if d == 4 {
        '4'
    } else if d == 5 { '5' } else if d == 6 { '6' } else if d == 7 { '7' } else if d == 8 { '8' } else { '9' };
    if n < 10 {
        let r = vec![c];
        assert(r@ =~= seq![digit(n as nat)]);
        r
    } else {
        let mut r = decimal_text(n / 10);
        r.push(c);
        r
    }
}

/// The outline kind of a resource kind.
pub open spec fn kind_category(kind: Seq<char>) -> SymbolCategory {
    if kind == "Pipeline"@ || kind == "Task"@ || kind == "ClusterTask"@ {
        SymbolCategory::Class
    } else if kind == "PipelineRun"@ || kind == "TaskRun"@ {
        SymbolCategory::Object
    } else if kind == "TriggerTemplate"@ || kind == "TriggerBinding"@ || kind == "EventListener"@ {
        SymbolCategory::Interface
    } else {
        SymbolCategory::File
    }
}

/// The name of a list item: its `name` scalar, or `unnamed`.
pub open spec fn item_name(item: Node) -> Seq<char> {
    match spec_get(item, "name"@) {
        Some(n) => match spec_scalar(n) {
            Some(t) => t,
            None => "unnamed"@,
        },
        None => "unnamed"@,
    }
}

/// The entries of a list's items.
pub open spec fn item_heads(node: Node, kind: SymbolCategory) -> Seq<SymbolHead> {
    match node.value {
        NodeValue::Sequence(items) => items@.map_values(|it: Node| (item_name(it), None, kind, it.range)),
        _ => Seq::empty(),
    }
}

/// The entry of a list: its label with the number of items.
pub open spec fn list_head(label: Seq<char>, node: Node, kind: SymbolCategory) -> SymbolHead {
    (label + " ("@ + decimal(item_heads(node, kind).len()) + ")"@, None, SymbolCategory::Array, node.range)
}

/// The entry of a section.
pub open spec fn section_head(label: Seq<char>, node: Node, kind: SymbolCategory) -> SymbolHead {
    (label, None, kind, node.range)
}

pub open spec fn list_if_present(spec: Node, label: Seq<char>, kind: SymbolCategory) -> Seq<SymbolHead> {
    match spec_get(spec, label) {
        Some(n) => seq![list_head(label, n, kind)],
        None => Seq::empty(),
    }
}

pub open spec fn section_if_present(spec: Node, label: Seq<char>, kind: SymbolCategory) -> Seq<SymbolHead> {
    match spec_get(spec, label) {
        Some(n) => seq![section_head(label, n, kind)],
        None => Seq::empty(),
    }
}

/// Which spec layout a resource kind has: 0 pipeline, 1 task, 2 pipeline
/// run, 3 task run, 4 none.
pub open spec fn spec_layout(kind: Seq<char>) -> int {
    if kind == "Pipeline"@ {
        0
    } else if kind == "Task"@ || kind == "ClusterTask"@ {
        1
    } else if kind == "PipelineRun"@ {
        2
    } else if kind == "TaskRun"@ {
        3
    } else {
        4
    }
}

/// The entries under `spec` for a spec layout.
pub open spec fn layout_entries(layout: int, spec: Node) -> Seq<SymbolHead> {
    let v = SymbolCategory::Variable;
    if layout == 0 {
        list_if_present(spec, "params"@, v) + list_if_present(spec, "workspaces"@, v) + list_if_present(
            spec,
            "tasks"@,
            v,
        ) + list_if_present(spec, "finally"@, v) + list_if_present(spec, "results"@, v)
    } else if layout == 1 {
        list_if_present(spec, "params"@, v) + list_if_present(spec, "workspaces"@, v) + list_if_present(
            spec,
            "steps"@,
            SymbolCategory::Function,
        ) + list_if_present(spec, "sidecars"@, SymbolCategory::Function) + list_if_present(spec, "results"@, v)
    } else if layout == 2 {
        section_if_present(spec, "pipelineRef"@, SymbolCategory::Property) + list_if_present(spec, "params"@, v)
            + list_if_present(spec, "workspaces"@, v)
    } else if layout == 3 {
        section_if_present(spec, "taskRef"@, SymbolCategory::Property) + list_if_present(spec, "params"@, v)
            + list_if_present(spec, "workspaces"@, v)
    } else {
        Seq::empty()
    }
}

/// The entries under `spec` for a resource of this kind.
pub open spec fn spec_entries(kind: Seq<char>, spec: Node) -> Seq<SymbolHead> {
    layout_entries(spec_layout(kind), spec)
}

/// The sections under the resource: `metadata`, then `spec`, where present.
pub open spec fn resource_entries(root: Node) -> Seq<SymbolHead> {
    section_if_present(root, "metadata"@, SymbolCategory::Namespace) + section_if_present(
        root,
        "spec"@,
        SymbolCategory::Module,
    )
}

/// The resource's kind, or `Unknown`.
pub open spec fn kind_label(doc_kind: Option<Seq<char>>) -> Seq<char> {
    match doc_kind {
        Some(k) => k,
        None => "Unknown"@,
    }
}

/// The resource's entry: `kind: name`, with `name` from `metadata.name`
/// or else the kind.
pub open spec fn root_head(doc: YamlDocument) -> SymbolHead {
    let kind = kind_label(opt_chars(doc.kind));
    let name = match spec_get(doc.root, "metadata"@) {
        Some(m) => match spec_get(m, "name"@) {
            Some(n) => match spec_scalar(n) {
                Some(t) => t,
                None => kind,
            },
            None => kind,
        },
        None => kind,
    };
    (kind + ": "@ + name, opt_chars(doc.api_version), kind_category(kind), doc.root.range)
}

fn copy_text(o: &Option<String>) -> (r: Option<String>)
    ensures
        opt_chars(r) == opt_chars(*o),
{
    match o {
        Some(s) => Some(s.clone()),
        None => None,
    }
}

fn push_symbol(out: &mut Vec<OutlineSymbol>, s: OutlineSymbol)
    ensures
        heads(final(out)@) == heads(old(out)@).push(head(s)),
        final(out)@ == old(out)@.push(s),
{
    out.push(s);
    assert(heads(out@) =~= heads(old(out)@).push(head(s)));
}

/// Builds the outline of Tekton documents.
#[derive(Debug, Clone, Default)]
pub struct SymbolsProvider;

impl SymbolsProvider {
    pub fn new() -> Self {
        SymbolsProvider
    }

    /// The resource name under `metadata.name`.
    pub fn get_resource_name(&self, root: &Node) -> (r: Option<String>)
        ensures
            opt_chars(r) == match spec_get(*root, "metadata"@) {
                Some(m) => top_scalar(m, "name"@),
                None => None,
            },
    {
        match root.get("metadata") {
            Some(m) => top_scalar_text(m, "name"),
            None => None,
        }
    }

    /// The outline kind of a resource kind.
    pub fn resource_kind_to_symbol_kind(&self, kind: &str) -> (r: SymbolCategory)
        ensures
            r == kind_category(kind@),
    {
        if str_eq(kind, "Pipeline") || str_eq(kind, "Task") || str_eq(kind, "ClusterTask") {
            SymbolCategory::Class
        } else if str_eq(kind, "PipelineRun") || str_eq(kind, "TaskRun") {
            SymbolCategory::Object
        } else if str_eq(kind, "TriggerTemplate") || str_eq(kind, "TriggerBinding") || str_eq(kind, "EventListener") {
            SymbolCategory::Interface
        } else {
            SymbolCategory::File
        }
    }

    /// The entry of a section, with no children yet.
    pub fn create_section_symbol(&self, label: &str, node: &Node, kind: SymbolCategory) -> (r: OutlineSymbol)
        ensures
            head(r) == section_head(label@, *node, kind),
            child_heads(r) == Some(Seq::<SymbolHead>::empty()),
    {
        let children: Vec<OutlineSymbol> = Vec::new();
        assert(heads(children@) =~= Seq::<SymbolHead>::empty());
        OutlineSymbol { name: label.to_owned(), detail: None, kind, range: node.range, children: Some(children) }
    }

    /// The `name` scalar of a list item.
    pub fn get_name_from_node(&self, node: &Node) -> (r: Option<String>)
        ensures
            opt_chars(r) == top_scalar(*node, "name"@),
    {
        top_scalar_text(node, "name")
    }

    /// The entry of a list, with one child per item (none for an empty
    /// list).
    pub fn create_array_symbol_with_kind(&self, label: &str, node: &Node, item_kind: SymbolCategory) -> (r: OutlineSymbol)
        ensures
            head(r) == list_head(label@, *node, item_kind),
            child_heads(r) == if item_heads(*node, item_kind).len() == 0 {
                None
            } else {
                Some(item_heads(*node, item_kind))
            },
    {
        let mut children: Vec<OutlineSymbol> = Vec::new();
        if let NodeValue::Sequence(items) = &node.value {
            let mut i: usize = 0;
            assert(heads(children@) =~= items@.take(0).map_values(|it: Node| (item_name(it), None, item_kind, it.range)));
            while i < items.len()
                invariant
                    i <= items@.len(),
                    node.value == NodeValue::Sequence(*items),
                    heads(children@) == items@.take(i as int).map_values(
                        |it: Node| (item_name(it), None::<Seq<char>>, item_kind, it.range),
                    ),
                decreases items@.len() - i,
            {
                let item = &items[i];
                let name = match self.get_name_from_node(item) {
                    Some(n) => n,
                    None => "unnamed".to_owned(),
                };
                push_symbol(&mut children, OutlineSymbol { name, detail: None, kind: item_kind, range: item.range, children: None });
                assert(items@.take(i + 1).map_values(|it: Node| (item_name(it), None::<Seq<char>>, item_kind, it.range))
                    =~= items@.take(i as int).map_values(|it: Node| (item_name(it), None::<Seq<char>>, item_kind, it.range)).push(
                    (item_name(items@[i as int]), None, item_kind, items@[i as int].range),
                ));
                i = i + 1;
            }
            assert(items@.take(i as int) =~= items@);
        } else {
            assert(heads(children@) =~= item_heads(*node, item_kind));
        }
        let count = children.len();
        let mut name = label.to_owned();
        name.append(" (");
        let digits = crate::text::string_of(&decimal_text(count));
        name.append(digits.as_str());
        name.append(")");
        let empty = children.len() == 0;
        OutlineSymbol {
            name,
            detail: None,
            kind: SymbolCategory::Array,
            range: node.range,
            children: if empty { None } else { Some(children) },
        }
    }

    /// The entry of a list whose items are variables.
    pub fn create_array_symbol(&self, label: &str, node: &Node) -> (r: OutlineSymbol)
        ensures
            head(r) == list_head(label@, *node, SymbolCategory::Variable),
            child_heads(r) == if item_heads(*node, SymbolCategory::Variable).len() == 0 {
                None
            } else {
                Some(item_heads(*node, SymbolCategory::Variable))
            },
    {
        self.create_array_symbol_with_kind(label, node, SymbolCategory::Variable)
    }

    fn push_list(&self, out: &mut Vec<OutlineSymbol>, spec: &Node, label: &str, kind: SymbolCategory)
        ensures
            heads(final(out)@) == heads(old(out)@) + list_if_present(*spec, label@, kind),
    {
        match spec.get(label) {
            Some(n) => {
                let sym = self.create_array_symbol_with_kind(label, n, kind);
                push_symbol(out, sym);
                assert(heads(out@) =~= heads(old(out)@) + list_if_present(*spec, label@, kind));
            },
            None => {
                assert(heads(out@) =~= heads(old(out)@) + list_if_present(*spec, label@, kind));
            },
        }
    }

    fn push_section(&self, out: &mut Vec<OutlineSymbol>, spec: &Node, label: &str, kind: SymbolCategory)
        ensures
            heads(final(out)@) == heads(old(out)@) + section_if_present(*spec, label@, kind),
    {
        match spec.get(label) {
            Some(n) => {
                let sym = self.create_section_symbol(label, n, kind);
                push_symbol(out, sym);
                assert(heads(out@) =~= heads(old(out)@) + section_if_present(*spec, label@, kind));
            },
            None => {
                assert(heads(out@) =~= heads(old(out)@) + section_if_present(*spec, label@, kind));
            },
        }
    }

    /// Appends a pipeline's spec entries.
    pub fn add_pipeline_spec_children(&self, children: &mut Vec<OutlineSymbol>, spec: &Node)
        ensures
            heads(final(children)@) == heads(old(children)@) + layout_entries(0, *spec),
    {
        let v = SymbolCategory::Variable;
        self.push_list(children, spec, "params", v);
        self.push_list(children, spec, "workspaces", v);
        self.push_list(children, spec, "tasks", v);
        self.push_list(children, spec, "finally", v);
        self.push_list(children, spec, "results", v);
        assert(heads(children@) =~= heads(old(children)@) + layout_entries(0, *spec));
    }

    /// Appends a task's spec entries.
    pub fn add_task_spec_children(&self, children: &mut Vec<OutlineSymbol>, spec: &Node)
        ensures
            heads(final(children)@) == heads(old(children)@) + layout_entries(1, *spec),
    {
        let v = SymbolCategory::Variable;
        self.push_list(children, spec, "params", v);
        self.push_list(children, spec, "workspaces", v);
        self.push_list(children, spec, "steps", SymbolCategory::Function);
        self.push_list(children, spec, "sidecars", SymbolCategory::Function);
        self.push_list(children, spec, "results", v);
        assert(heads(children@) =~= heads(old(children)@) + layout_entries(1, *spec));
    }

    /// Appends a pipeline run's spec entries.
    pub fn add_pipeline_run_spec_children(&self, children: &mut Vec<OutlineSymbol>, spec: &Node)
        ensures
            heads(final(children)@) == heads(old(children)@) + layout_entries(2, *spec),
    {
        self.push_section(children, spec, "pipelineRef", SymbolCategory::Property);
        self.push_list(children, spec, "params", SymbolCategory::Variable);
        self.push_list(children, spec, "workspaces", SymbolCategory::Variable);
        assert(heads(children@) =~= heads(old(children)@) + layout_entries(2, *spec));
    }

    /// Appends a task run's spec entries.
    pub fn add_task_run_spec_children(&self, children: &mut Vec<OutlineSymbol>, spec: &Node)
        ensures
            heads(final(children)@) == heads(old(children)@) + layout_entries(3, *spec),
    {
        self.push_section(children, spec, "taskRef", SymbolCategory::Property);
        self.push_list(children, spec, "params", SymbolCategory::Variable);
        self.push_list(children, spec, "workspaces", SymbolCategory::Variable);
        assert(heads(children@) =~= heads(old(children)@) + layout_entries(3, *spec));
    }

    /// Appends the `metadata` and `spec` sections of a resource of this
    /// kind; the `spec` section holds the kind's spec entries.
    pub fn add_resource_children(&self, children: &mut Vec<OutlineSymbol>, root: &Node, kind: &str)
        ensures
            heads(final(children)@) == heads(old(children)@) + resource_entries(*root),
            spec_get(*root, "spec"@) is Some ==> child_heads(final(children)@.last()) == Some(
                spec_entries(kind@, spec_get(*root, "spec"@)->0),
            ),
    {
        self.push_section(children, root, "metadata", SymbolCategory::Namespace);
        let ghost mid = heads(children@);
        match root.get("spec") {
            Some(spec) => {
                let mut entries: Vec<OutlineSymbol> = Vec::new();
                assert(heads(entries@) =~= Seq::<SymbolHead>::empty());
                if str_eq(kind, "Pipeline") {
                    self.add_pipeline_spec_children(&mut entries, spec);
                } else if str_eq(kind, "Task") || str_eq(kind, "ClusterTask") {
                    self.add_task_spec_children(&mut entries, spec);
                } else if str_eq(kind, "PipelineRun") {
                    self.add_pipeline_run_spec_children(&mut entries, spec);
                } else if str_eq(kind, "TaskRun") {
                    self.add_task_run_spec_children(&mut entries, spec);
                }
                assert(heads(entries@) =~= spec_entries(kind@, *spec));
                let sym = OutlineSymbol {
                    name: "spec".to_owned(),
                    detail: None,
                    kind: SymbolCategory::Module,
                    range: spec.range,
                    children: Some(entries),
                };
                push_symbol(children, sym);
                assert(heads(children@) =~= heads(old(children)@) + resource_entries(*root));
            },
            None => {
                assert(heads(children@) =~= heads(old(children)@) + resource_entries(*root));
            },
        }
    }

    /// The outline of a document: one entry for the resource, holding its
    /// sections.
    pub fn provide_symbols(&self, doc: &YamlDocument) -> (r: Vec<OutlineSymbol>)
        ensures
            r@.len() == 1,
            head(r@[0]) == root_head(*doc),
            child_heads(r@[0]) == Some(resource_entries(doc.root)),
            spec_get(doc.root, "spec"@) is Some ==> r@[0].children->0@.len() > 0 && child_heads(
                r@[0].children->0@.last(),
            ) == Some(spec_entries(kind_label(opt_chars(doc.kind)), spec_get(doc.root, "spec"@)->0)),
    {
        let kind = match &doc.kind {
            Some(k) => k.clone(),
            None => "Unknown".to_owned(),
        };
        let name = match self.get_resource_name(&doc.root) {
            Some(n) => n,
            None => kind.clone(),
        };
        let mut title = kind.clone();
        title.append(": ");
        title.append(name.as_str());
        let mut children: Vec<OutlineSymbol> = Vec::new();
        assert(heads(children@) =~= Seq::<SymbolHead>::empty());
        self.add_resource_children(&mut children, &doc.root, kind.as_str());
        assert(heads(children@) =~= resource_entries(doc.root));
        let root = OutlineSymbol {
            name: title,
            detail: copy_text(&doc.api_version),
            kind: self.resource_kind_to_symbol_kind(kind.as_str()),
            range: doc.root.range,
            children: Some(children),
        };
        let mut r: Vec<OutlineSymbol> = Vec::new();
        r.push(root);
        r
    }
}

} // verus!

//! The workspace-wide index of resource definitions and of the references
//! between resources, kept per document.

use vstd::prelude::*;
use crate::ast::{well_nested, opt_chars, spec_get, spec_scalar, top_scalar, top_scalar_text, Node, NodeValue};
use crate::parser::parse_yaml;
use crate::syntax::{root_built, SyntaxNode};
use crate::position::Range;
use crate::text::str_eq;

verus! {

broadcast use vstd::seq_lib::group_filter_ensures;

/// A place in a document.
#[derive(Debug, Clone)]
pub struct Location {
    pub uri: String,
    pub range: Range,
}

/// A resource declared by a document through its `kind` and `metadata.name`.
#[derive(Debug, Clone)]
pub struct ResourceDefinition {
    pub uri: String,
    pub kind: String,
    pub name: String,
    pub api_version: Option<String>,
    /// Where the name stands.
    pub location: Location,
}

/// A document's mention of another resource by kind and name.
#[derive(Debug, Clone)]
pub struct ResourceReference {
    pub uri: String,
    pub ref_kind: String,
    pub ref_name: String,
    /// Where the referenced name stands.
    pub location: Location,
}

/// The definition key that indexing a document recorded for it.
#[derive(Debug, Clone)]
struct OwnedKey {
    uri: String,
    kind: String,
    name: String,
}

pub ghost struct DefinitionView {
    pub uri: Seq<char>,
    pub kind: Seq<char>,
    pub name: Seq<char>,
    pub api_version: Option<Seq<char>>,
    pub location_uri: Seq<char>,
    pub range: Range,
}

pub ghost struct ReferenceView {
    pub uri: Seq<char>,
    pub kind: Seq<char>,
    pub name: Seq<char>,
    pub location_uri: Seq<char>,
    pub range: Range,
}

/// (uri, kind, name)
pub type KeyView = (Seq<char>, Seq<char>, Seq<char>);

/// The index: definitions (one per kind and name), references in the order
/// they were recorded, and the definition keys recorded for each uri.
pub ghost struct IndexView {
    pub definitions: Seq<DefinitionView>,
    pub references: Seq<ReferenceView>,
    pub owners: Seq<KeyView>,
}

pub open spec fn def_view(d: ResourceDefinition) -> DefinitionView {
    DefinitionView {
        uri: d.uri@,
        kind: d.kind@,
        name: d.name@,
        api_version: opt_chars(d.api_version),
        location_uri: d.location.uri@,
        range: d.location.range,
    }
}

pub open spec fn ref_view(r: ResourceReference) -> ReferenceView {
    ReferenceView {
        uri: r.uri@,
        kind: r.ref_kind@,
        name: r.ref_name@,
        location_uri: r.location.uri@,
        range: r.location.range,
    }
}

spec fn key_view(k: OwnedKey) -> KeyView {
    (k.uri@, k.kind@, k.name@)
}

pub open spec fn def_views(s: Seq<ResourceDefinition>) -> Seq<DefinitionView> {
    s.map_values(|d: ResourceDefinition| def_view(d))
}

pub open spec fn ref_views(s: Seq<ResourceReference>) -> Seq<ReferenceView> {
    s.map_values(|r: ResourceReference| ref_view(r))
}

spec fn key_views(s: Seq<OwnedKey>) -> Seq<KeyView> {
    s.map_values(|k: OwnedKey| key_view(k))
}

/// The definition recorded last under `kind` and `name`.
pub open spec fn lookup_definition(defs: Seq<DefinitionView>, kind: Seq<char>, name: Seq<char>) -> Option<DefinitionView>
    decreases defs.len(),
{
    if defs.len() == 0 {
        None
    } else if defs.last().kind == kind && defs.last().name == name {
        Some(defs.last())
    } else {
        lookup_definition(defs.drop_last(), kind, name)
    }
}

pub open spec fn refers_to(kind: Seq<char>, name: Seq<char>) -> spec_fn(ReferenceView) -> bool {
    |r: ReferenceView| r.kind == kind && r.name == name
}

pub open spec fn not_from(uri: Seq<char>) -> spec_fn(ReferenceView) -> bool {
    |r: ReferenceView| r.uri != uri
}

pub open spec fn owns(owners: Seq<KeyView>, uri: Seq<char>, kind: Seq<char>, name: Seq<char>) -> bool {
    owners.contains((uri, kind, name))
}

/// Definitions declared in another document than `uri`.
pub open spec fn not_declared_in(uri: Seq<char>) -> spec_fn(DefinitionView) -> bool {
    |d: DefinitionView| d.uri != uri
}

pub open spec fn other_owner(uri: Seq<char>) -> spec_fn(KeyView) -> bool {
    |k: KeyView| k.0 != uri
}

pub open spec fn other_key(kind: Seq<char>, name: Seq<char>) -> spec_fn(DefinitionView) -> bool {
    |d: DefinitionView| !(d.kind == kind && d.name == name)
}

/// The index without what was recorded for `uri`: the definitions and the
/// references it declared and made, and its keys. Another document's
/// definition stays, also under a key that `uri` once declared.
pub open spec fn removed(v: IndexView, uri: Seq<char>) -> IndexView {
    IndexView {
        definitions: v.definitions.filter(not_declared_in(uri)),
        references: v.references.filter(not_from(uri)),
        owners: v.owners.filter(other_owner(uri)),
    }
}

/// The index with `d` recorded: it replaces any definition with its key.
pub open spec fn with_definition(v: IndexView, d: DefinitionView) -> IndexView {
    IndexView {
        definitions: v.definitions.filter(other_key(d.kind, d.name)).push(d),
        references: v.references,
        owners: v.owners.push((d.uri, d.kind, d.name)),
    }
}

/// The definition that a document with this tree declares: its `kind` and
/// the scalar under `metadata.name`, located at that name.
pub open spec fn extract_definition(uri: Seq<char>, root: Node) -> Option<DefinitionView> {
    match top_scalar(root, "kind"@) {
        Some(kind) => match spec_get(root, "metadata"@) {
            Some(meta) => match spec_get(meta, "name"@) {
                Some(name_node) => match spec_scalar(name_node) {
                    Some(name) => Some(
                        DefinitionView {
                            uri,
                            kind,
                            name,
                            api_version: top_scalar(root, "apiVersion"@),
                            location_uri: uri,
                            range: name_node.range,
                        },
                    ),
                    None => None,
                },
                None => None,
            },
            None => None,
        },
        None => None,
    }
}

/// The reference that a `taskRef` node makes: its `name`, and its `kind`
/// or `Task` where it gives none.
pub open spec fn task_ref_of(uri: Seq<char>, task_ref: Node) -> Seq<ReferenceView> {
    match spec_get(task_ref, "name"@) {
        Some(name_node) => match spec_scalar(name_node) {
            Some(name) => seq![
                ReferenceView {
                    uri,
                    kind: match top_scalar(task_ref, "kind"@) {
                        Some(k) => k,
                        None => "Task"@,
                    },
                    name,
                    location_uri: uri,
                    range: name_node.range,
                },
            ],
            None => Seq::empty(),
        },
        None => Seq::empty(),
    }
}

/// The references that the `taskRef` entries of pipeline tasks make.
pub open spec fn task_refs(uri: Seq<char>, tasks: Seq<Node>) -> Seq<ReferenceView>
    decreases tasks.len(),
{
    if tasks.len() == 0 {
        Seq::empty()
    } else {
        task_refs(uri, tasks.drop_last()) + match spec_get(tasks.last(), "taskRef"@) {
            Some(task_ref) => task_ref_of(uri, task_ref),
            None => Seq::empty(),
        }
    }
}

/// The references of a task list, when the node is a sequence.
pub open spec fn task_list_refs(uri: Seq<char>, list: Option<Node>) -> Seq<ReferenceView> {
    match list {
        Some(n) => match n.value {
            NodeValue::Sequence(items) => task_refs(uri, items@),
            _ => Seq::empty(),
        },
        None => Seq::empty(),
    }
}

/// The reference that a `pipelineRef` node makes: its `name`, and its
/// `kind` or `Pipeline` where it gives none.
pub open spec fn pipeline_ref_of(uri: Seq<char>, pipeline_ref: Node) -> Seq<ReferenceView> {
    match spec_get(pipeline_ref, "name"@) {
        Some(name_node) => match spec_scalar(name_node) {
            Some(name) => seq![
                ReferenceView {
                    uri,
                    kind: match top_scalar(pipeline_ref, "kind"@) {
                        Some(k) => k,
                        None => "Pipeline"@,
                    },
                    name,
                    location_uri: uri,
                    range: name_node.range,
                },
            ],
            None => Seq::empty(),
        },
        None => Seq::empty(),
    }
}

/// The references that a document with this tree makes: for a `Pipeline`,
/// those of `spec.tasks` then `spec.finally`; for a `PipelineRun`, its
/// `spec.pipelineRef`; none for other kinds.
pub open spec fn extract_references(uri: Seq<char>, root: Node) -> Seq<ReferenceView> {
    match top_scalar(root, "kind"@) {
        Some(kind) => if kind == "Pipeline"@ {
            match spec_get(root, "spec"@) {
                Some(spec) => task_list_refs(uri, spec_get(spec, "tasks"@)) + task_list_refs(
                    uri,
                    spec_get(spec, "finally"@),
                ),
                None => Seq::empty(),
            }
        } else if kind == "PipelineRun"@ {
            match spec_get(root, "spec"@) {
                Some(spec) => match spec_get(spec, "pipelineRef"@) {
                    Some(pr) => pipeline_ref_of(uri, pr),
                    None => Seq::empty(),
                },
                None => Seq::empty(),
            }
        } else {
            Seq::empty()
        },
        None => Seq::empty(),
    }
}

/// The index after recording a document's tree on top of `v`.
pub open spec fn recorded(v: IndexView, uri: Seq<char>, root: Node) -> IndexView {
    let v1 = match extract_definition(uri, root) {
        Some(d) => with_definition(v, d),
        None => v,
    };
    IndexView { references: v1.references + extract_references(uri, root), ..v1 }
}

/// The index after indexing a document anew: what it had is removed first.
pub open spec fn indexed(v: IndexView, uri: Seq<char>, root: Node) -> IndexView {
    recorded(removed(v, uri), uri, root)
}

/// Each definition's key is recorded for the document that declared it.
pub open spec fn index_wf(v: IndexView) -> bool {
    forall|i: int|
        0 <= i < v.definitions.len() ==> owns(
            v.owners,
            (#[trigger] v.definitions[i]).uri,
            v.definitions[i].kind,
            v.definitions[i].name,
        )
}

proof fn lemma_removed_wf(v: IndexView, uri: Seq<char>)
    requires
        index_wf(v),
    ensures
        index_wf(removed(v, uri)),
{
    let r = removed(v, uri);
    assert forall|i: int| 0 <= i < r.definitions.len() implies owns(
        r.owners,
        (#[trigger] r.definitions[i]).uri,
        r.definitions[i].kind,
        r.definitions[i].name,
    ) by {
        let d = r.definitions[i];
        assert(r.definitions.contains(d));
        v.definitions.lemma_filter_contains_rev(not_declared_in(uri), d);
        assert(not_declared_in(uri)(d));
        let j = choose|j: int| 0 <= j < v.definitions.len() && v.definitions[j] == d;
        assert(owns(v.owners, d.uri, d.kind, d.name));
        let m = choose|m: int| 0 <= m < v.owners.len() && v.owners[m] == (d.uri, d.kind, d.name);
        assert(other_owner(uri)(v.owners[m]));
    }
}

proof fn lemma_with_definition_wf(v: IndexView, d: DefinitionView)
    requires
        index_wf(v),
    ensures
        index_wf(with_definition(v, d)),
{
    let r = with_definition(v, d);
    let n = r.definitions.len() - 1;
    assert(r.owners[v.owners.len() as int] == (d.uri, d.kind, d.name));
    assert forall|i: int| 0 <= i < r.definitions.len() implies owns(
        r.owners,
        (#[trigger] r.definitions[i]).uri,
        r.definitions[i].kind,
        r.definitions[i].name,
    ) by {
        if i < n {
            let f = v.definitions.filter(other_key(d.kind, d.name));
            let e = r.definitions[i];
            assert(e == f[i]);
            assert(f.contains(e));
            v.definitions.lemma_filter_contains_rev(other_key(d.kind, d.name), e);
            let j = choose|j: int| 0 <= j < v.definitions.len() && v.definitions[j] == e;
            assert(owns(v.owners, e.uri, e.kind, e.name));
            let m = choose|m: int| 0 <= m < v.owners.len() && v.owners[m] == (e.uri, e.kind, e.name);
            assert(r.owners[m] == (e.uri, e.kind, e.name));
        }
    }
}

fn copy_text(o: &Option<String>) -> (r: Option<String>)
    ensures
        opt_chars(r) == opt_chars(*o),
{
    match o {
        Some(s) => Some(s.clone()),
        None => None,
    }
}

impl Location {
    pub fn duplicate(&self) -> (r: Self)
        ensures
            r.uri@ == self.uri@,
            r.range == self.range,
    {
        Location { uri: self.uri.clone(), range: self.range }
    }
}

impl ResourceDefinition {
    pub fn duplicate(&self) -> (r: Self)
        ensures
            def_view(r) == def_view(*self),
    {
        ResourceDefinition {
            uri: self.uri.clone(),
            kind: self.kind.clone(),
            name: self.name.clone(),
            api_version: copy_text(&self.api_version),
            location: self.location.duplicate(),
        }
    }
}

impl ResourceReference {
    pub fn duplicate(&self) -> (r: Self)
        ensures
            ref_view(r) == ref_view(*self),
    {
        ResourceReference {
            uri: self.uri.clone(),
            ref_kind: self.ref_kind.clone(),
            ref_name: self.ref_name.clone(),
            location: self.location.duplicate(),
        }
    }
}

impl OwnedKey {
    fn duplicate(&self) -> (r: Self)
        ensures
            key_view(r) == key_view(*self),
    {
        OwnedKey { uri: self.uri.clone(), kind: self.kind.clone(), name: self.name.clone() }
    }
}

/// The definition that a document with this tree declares.
fn definition_of(uri: &str, root: &Node) -> (r: Option<ResourceDefinition>)
    ensures
        match r {
            Some(d) => extract_definition(uri@, *root) == Some(def_view(d)),
            None => extract_definition(uri@, *root) is None,
        },
{
    let kind = match top_scalar_text(root, "kind") {
        Some(k) => k,
        None => return None,
    };
    let meta = match root.get("metadata") {
        Some(m) => m,
        None => return None,
    };
    let name_node = match meta.get("name") {
        Some(n) => n,
        None => return None,
    };
    let name = match name_node.as_scalar() {
        Some(s) => s.to_owned(),
        None => return None,
    };
    let api_version = top_scalar_text(root, "apiVersion");
    Some(
        ResourceDefinition {
            uri: uri.to_owned(),
            kind,
            name,
            api_version,
            location: Location { uri: uri.to_owned(), range: name_node.range },
        },
    )
}

/// The reference that a `taskRef` node makes.
fn task_ref_reference(uri: &str, task_ref: &Node) -> (r: Option<ResourceReference>)
    ensures
        match r {
            Some(x) => task_ref_of(uri@, *task_ref) == seq![ref_view(x)],
            None => task_ref_of(uri@, *task_ref) == Seq::<ReferenceView>::empty(),
        },
{
    let name_node = match task_ref.get("name") {
        Some(n) => n,
        None => return None,
    };
    let name = match name_node.as_scalar() {
        Some(s) => s.to_owned(),
        None => return None,
    };
    let kind = match top_scalar_text(task_ref, "kind") {
        Some(k) => k,
        None => "Task".to_owned(),
    };
    let r = ResourceReference {
        uri: uri.to_owned(),
        ref_kind: kind,
        ref_name: name,
        location: Location { uri: uri.to_owned(), range: name_node.range },
    };
    assert(task_ref_of(uri@, *task_ref) =~= seq![ref_view(r)]);
    Some(r)
}

/// The reference that a `pipelineRef` node makes.
fn pipeline_ref_reference(uri: &str, pipeline_ref: &Node) -> (r: Option<ResourceReference>)
    ensures
        match r {
            Some(x) => pipeline_ref_of(uri@, *pipeline_ref) == seq![ref_view(x)],
            None => pipeline_ref_of(uri@, *pipeline_ref) == Seq::<ReferenceView>::empty(),
        },
{
    let name_node = match pipeline_ref.get("name") {
        Some(n) => n,
        None => return None,
    };
    let name = match name_node.as_scalar() {
        Some(s) => s.to_owned(),
        None => return None,
    };
    let kind = match top_scalar_text(pipeline_ref, "kind") {
        Some(k) => k,
        None => "Pipeline".to_owned(),
    };
    let r = ResourceReference {
        uri: uri.to_owned(),
        ref_kind: kind,
        ref_name: name,
        location: Location { uri: uri.to_owned(), range: name_node.range },
    };
    assert(pipeline_ref_of(uri@, *pipeline_ref) =~= seq![ref_view(r)]);
    Some(r)
}

/// Appends `x` to `out`, keeping `ref_views` in step.
fn push_reference(out: &mut Vec<ResourceReference>, x: ResourceReference)
    ensures
        ref_views(final(out)@) == ref_views(old(out)@).push(ref_view(x)),
{
    out.push(x);
    assert(ref_views(out@) =~= ref_views(old(out)@).push(ref_view(x)));
}

/// Appends the references of a task list to `out`.
fn push_task_list_refs(uri: &str, list: Option<&Node>, out: &mut Vec<ResourceReference>)
    ensures
        ref_views(final(out)@) == ref_views(old(out)@) + task_list_refs(
            uri@,
            match list {
                Some(n) => Some(*n),
                None => None,
            },
        ),
{
    let items = match list {
        Some(n) => match &n.value {
            NodeValue::Sequence(items) => items,
            _ => {
                assert(ref_views(out@) =~= ref_views(out@) + Seq::<ReferenceView>::empty());
                return;
            },
        },
        None => {
            assert(ref_views(out@) =~= ref_views(out@) + Seq::<ReferenceView>::empty());
            return;
        },
    };
    let ghost start = ref_views(out@);
    let mut i: usize = 0;
    assert(items@.take(0) =~= Seq::<Node>::empty());
    assert(start =~= start + task_refs(uri@, items@.take(0)));
    while i < items.len()
        invariant
            i <= items@.len(),
            ref_views(out@) == start + task_refs(uri@, items@.take(i as int)),
        decreases items@.len() - i,
    {
        let task = &items[i];
        let ghost before = ref_views(out@);
        proof {
            let t = items@.take(i + 1);
            assert(t.drop_last() =~= items@.take(i as int));
            assert(t.last() == items@[i as int]);
        }
        match task.get("taskRef") {
            Some(task_ref) => {
                match task_ref_reference(uri, task_ref) {
                    Some(x) => {
                        push_reference(out, x);
                        assert(ref_views(out@) =~= start + task_refs(uri@, items@.take(i + 1)));
                    },
                    None => {
                        assert(ref_views(out@) =~= start + task_refs(uri@, items@.take(i + 1)));
                    },
                }
            },
            None => {
                assert(ref_views(out@) =~= start + task_refs(uri@, items@.take(i + 1)));
            },
        }
        i = i + 1;
    }
    assert(items@.take(i as int) =~= items@);
}

/// The references that a document with this tree makes.
fn references_of(uri: &str, root: &Node) -> (r: Vec<ResourceReference>)
    ensures
        ref_views(r@) == extract_references(uri@, *root),
{
    let mut out: Vec<ResourceReference> = Vec::new();
    assert(ref_views(out@) =~= Seq::<ReferenceView>::empty());
    let kind = match top_scalar_text(root, "kind") {
        Some(k) => k,
        None => return out,
    };
    let spec_node = match root.get("spec") {
        Some(s) => s,
        None => return out,
    };
    if str_eq(kind.as_str(), "Pipeline") {
        push_task_list_refs(uri, spec_node.get("tasks"), &mut out);
        push_task_list_refs(uri, spec_node.get("finally"), &mut out);
        assert(ref_views(out@) =~= extract_references(uri@, *root));
    } else if str_eq(kind.as_str(), "PipelineRun") {
        if let Some(pr) = spec_node.get("pipelineRef") {
            if let Some(x) = pipeline_ref_reference(uri, pr) {
                push_reference(&mut out, x);
                assert(ref_views(out@) =~= extract_references(uri@, *root));
            }
        }
    }
    out
}

/// The index of resources and references over all indexed documents.
#[derive(Debug)]
pub struct WorkspaceIndex {
    resources: Vec<ResourceDefinition>,
    references: Vec<ResourceReference>,
    owners: Vec<OwnedKey>,
}

impl View for WorkspaceIndex {
    type V = IndexView;

    closed spec fn view(&self) -> IndexView {
        IndexView {
            definitions: def_views(self.resources@),
            references: ref_views(self.references@),
            owners: key_views(self.owners@),
        }
    }
}

impl WorkspaceIndex {
    #[verifier::type_invariant]
    closed spec fn inv(self) -> bool {
        index_wf(self@)
    }

    pub fn new() -> (r: Self)
        ensures
            index_wf(r@),
            r@.definitions.len() == 0,
            r@.references.len() == 0,
            r@.owners.len() == 0,
    {
        WorkspaceIndex { resources: Vec::new(), references: Vec::new(), owners: Vec::new() }
    }

    /// The definition recorded under `kind` and `name`.
    pub fn find_resource(&self, kind: &str, name: &str) -> (r: Option<ResourceDefinition>)
        ensures
            match r {
                Some(d) => lookup_definition(self@.definitions, kind@, name@) == Some(def_view(d)),
                None => lookup_definition(self@.definitions, kind@, name@) is None,
            },
    {
        let ghost defs = self@.definitions;
        let mut i = self.resources.len();
        assert(defs.take(i as int) =~= defs);
        while i > 0
            invariant
                i <= self.resources@.len(),
                defs == self@.definitions,
                lookup_definition(defs, kind@, name@) == lookup_definition(defs.take(i as int), kind@, name@),
            decreases i,
        {
            let d = &self.resources[i - 1];
            proof {
                let t = defs.take(i as int);
                assert(t.drop_last() =~= defs.take(i - 1));
                assert(t.last() == def_view(*d));
            }
            if str_eq(d.kind.as_str(), kind) && str_eq(d.name.as_str(), name) {
                return Some(d.duplicate());
            }
            i = i - 1;
        }
        None
    }

    /// All references to `kind` and `name`, in the order they were recorded.
    pub fn find_references(&self, kind: &str, name: &str) -> (r: Vec<ResourceReference>)
        ensures
            ref_views(r@) == self@.references.filter(refers_to(kind@, name@)),
    {
        let ghost refs = self@.references;
        let mut out: Vec<ResourceReference> = Vec::new();
        let mut i: usize = 0;
        proof { reveal(Seq::filter); }
        assert(refs.take(0).filter(refers_to(kind@, name@)) =~= ref_views(out@));
        while i < self.references.len()
            invariant
                i <= self.references@.len(),
                refs == self@.references,
                ref_views(out@) == refs.take(i as int).filter(refers_to(kind@, name@)),
            decreases self.references@.len() - i,
        {
            let x = &self.references[i];
            proof {
                reveal(Seq::filter);
                let t = refs.take(i + 1);
                assert(t.drop_last() =~= refs.take(i as int));
                assert(t.last() == ref_view(*x));
            }
            if str_eq(x.ref_kind.as_str(), kind) && str_eq(x.ref_name.as_str(), name) {
                push_reference(&mut out, x.duplicate());
            }
            i = i + 1;
        }
        assert(refs.take(i as int) =~= refs);
        out
    }

    /// Removes every definition declared in `uri` and every reference made
    /// from it, and its recorded keys; other documents' entries stay. A uri
    /// with nothing recorded leaves the index as it is.
    pub fn remove_document(&mut self, uri: &str)
        ensures
            index_wf(final(self)@),
            final(self)@ == removed(old(self)@, uri@),
    {
        proof { use_type_invariant(&*self); }
        let ghost v = self@;
        let mut defs: Vec<ResourceDefinition> = Vec::new();
        let mut i: usize = 0;
        proof { reveal(Seq::filter); }
        assert(v.definitions.take(0).filter(not_declared_in(uri@)) =~= def_views(defs@));
        while i < self.resources.len()
            invariant
                i <= self.resources@.len(),
                v == self@,
                def_views(defs@) == v.definitions.take(i as int).filter(not_declared_in(uri@)),
            decreases self.resources@.len() - i,
        {
            let d = &self.resources[i];
            proof {
                reveal(Seq::filter);
                let t = v.definitions.take(i + 1);
                assert(t.drop_last() =~= v.definitions.take(i as int));
                assert(t.last() == def_view(*d));
            }
            if !str_eq(d.uri.as_str(), uri) {
                let c = d.duplicate();
                let ghost prev = defs@;
                defs.push(c);
                assert(def_views(defs@) =~= def_views(prev).push(def_view(c)));
            }
            i = i + 1;
        }
        assert(v.definitions.take(i as int) =~= v.definitions);

        let mut refs: Vec<ResourceReference> = Vec::new();
        let mut i: usize = 0;
        assert(v.references.take(0).filter(not_from(uri@)) =~= ref_views(refs@));
        while i < self.references.len()
            invariant
                i <= self.references@.len(),
                v == self@,
                ref_views(refs@) == v.references.take(i as int).filter(not_from(uri@)),
            decreases self.references@.len() - i,
        {
            let x = &self.references[i];
            proof {
                reveal(Seq::filter);
                let t = v.references.take(i + 1);
                assert(t.drop_last() =~= v.references.take(i as int));
                assert(t.last() == ref_view(*x));
            }
            if !str_eq(x.uri.as_str(), uri) {
                push_reference(&mut refs, x.duplicate());
            }
            i = i + 1;
        }
        assert(v.references.take(i as int) =~= v.references);

        let mut keys: Vec<OwnedKey> = Vec::new();
        let mut i: usize = 0;
        assert(v.owners.take(0).filter(other_owner(uri@)) =~= key_views(keys@));
        while i < self.owners.len()
            invariant
                i <= self.owners@.len(),
                v == self@,
                key_views(keys@) == v.owners.take(i as int).filter(other_owner(uri@)),
            decreases self.owners@.len() - i,
        {
            let k = &self.owners[i];
            proof {
                reveal(Seq::filter);
                let t = v.owners.take(i + 1);
                assert(t.drop_last() =~= v.owners.take(i as int));
                assert(t.last() == key_view(*k));
            }
            if !str_eq(k.uri.as_str(), uri) {
                let c = k.duplicate();
                let ghost prev = keys@;
                keys.push(c);
                assert(key_views(keys@) =~= key_views(prev).push(key_view(c)));
            }
            i = i + 1;
        }
        assert(v.owners.take(i as int) =~= v.owners);

        proof { lemma_removed_wf(v, uri@); }
        let ghost r = removed(v, uri@);
        assert forall|i: int| 0 <= i < r.definitions.len() implies owns(
            v.owners,
            (#[trigger] r.definitions[i]).uri,
            r.definitions[i].kind,
            r.definitions[i].name,
        ) by {
            let d = r.definitions[i];
            assert(r.definitions.contains(d));
            v.definitions.lemma_filter_contains_rev(not_declared_in(uri@), d);
        }
        self.resources = defs;
        self.references = refs;
        self.owners = keys;
    }

    /// Records a definition, replacing any with the same key.
    fn record_definition(&mut self, d: ResourceDefinition)
        ensures
            index_wf(final(self)@),
            final(self)@ == with_definition(old(self)@, def_view(d)),
    {
        proof { use_type_invariant(&*self); }
        let ghost v = self@;
        let ghost dv = def_view(d);
        let mut defs: Vec<ResourceDefinition> = Vec::new();
        let mut i: usize = 0;
        proof { reveal(Seq::filter); }
        assert(v.definitions.take(0).filter(other_key(dv.kind, dv.name)) =~= def_views(defs@));
        while i < self.resources.len()
            invariant
                i <= self.resources@.len(),
                v == self@,
                dv == def_view(d),
                def_views(defs@) == v.definitions.take(i as int).filter(other_key(dv.kind, dv.name)),
            decreases self.resources@.len() - i,
        {
            let e = &self.resources[i];
            proof {
                reveal(Seq::filter);
                let t = v.definitions.take(i + 1);
                assert(t.drop_last() =~= v.definitions.take(i as int));
                assert(t.last() == def_view(*e));
            }
            if !(str_eq(e.kind.as_str(), d.kind.as_str()) && str_eq(e.name.as_str(), d.name.as_str())) {
                let c = e.duplicate();
                let ghost prev = defs@;
                defs.push(c);
                assert(def_views(defs@) =~= def_views(prev).push(def_view(c)));
            }
            i = i + 1;
        }
        assert(v.definitions.take(i as int) =~= v.definitions);
        let key = OwnedKey { uri: d.uri.clone(), kind: d.kind.clone(), name: d.name.clone() };
        let ghost prev_defs = defs@;
        defs.push(d);
        assert(def_views(defs@) =~= def_views(prev_defs).push(dv));
        let mut keys: Vec<OwnedKey> = Vec::new();
        let mut j: usize = 0;
        while j < self.owners.len()
            invariant
                j <= self.owners@.len(),
                v == self@,
                key_views(keys@) == v.owners.take(j as int),
            decreases self.owners@.len() - j,
        {
            let c = self.owners[j].duplicate();
            let ghost prev = keys@;
            keys.push(c);
            assert(key_views(keys@) =~= key_views(prev).push(key_view(c)));
            assert(v.owners.take(j + 1) =~= v.owners.take(j as int).push(v.owners[j as int]));
            j = j + 1;
        }
        assert(v.owners.take(j as int) =~= v.owners);
        let ghost prev_keys = keys@;
        keys.push(key);
        assert(key_views(keys@) =~= v.owners.push((dv.uri, dv.kind, dv.name)));
        proof { lemma_with_definition_wf(v, dv); }
        let ghost w = with_definition(v, dv);
        assert(key_views(keys@) == w.owners);
        assert(def_views(defs@) == w.definitions);
        assert forall|i: int| 0 <= i < v.definitions.len() implies owns(
            w.owners,
            (#[trigger] v.definitions[i]).uri,
            v.definitions[i].kind,
            v.definitions[i].name,
        ) by {
            let e = v.definitions[i];
            let m = choose|m: int| 0 <= m < v.owners.len() && v.owners[m] == (e.uri, e.kind, e.name);
            assert(w.owners[m] == (e.uri, e.kind, e.name));
        }
        assert(index_wf(IndexView { definitions: v.definitions, references: v.references, owners: w.owners }));
        self.owners = keys;
        assert(self@ == IndexView { definitions: v.definitions, references: v.references, owners: w.owners });
        self.resources = defs;
    }

    /// Records what a document with this tree declares and references, on
    /// top of what the index holds.
    pub fn index_tree(&mut self, uri: &str, root: &Node)
        ensures
            index_wf(final(self)@),
            final(self)@ == recorded(old(self)@, uri@, *root),
    {
        proof { use_type_invariant(&*self); }
        if let Some(d) = definition_of(uri, root) {
            self.record_definition(d);
        }
        proof { use_type_invariant(&*self); }
        let ghost v1 = self@;
        let found = references_of(uri, root);
        let mut refs: Vec<ResourceReference> = Vec::new();
        let mut j: usize = 0;
        while j < self.references.len()
            invariant
                j <= self.references@.len(),
                v1 == self@,
                ref_views(refs@) == v1.references.take(j as int),
            decreases self.references@.len() - j,
        {
            push_reference(&mut refs, self.references[j].duplicate());
            assert(v1.references.take(j + 1) =~= v1.references.take(j as int).push(v1.references[j as int]));
            j = j + 1;
        }
        assert(v1.references.take(j as int) =~= v1.references);
        let mut i: usize = 0;
        assert(found@.take(0) =~= Seq::<ResourceReference>::empty());
        assert(ref_views(refs@) =~= v1.references + ref_views(found@.take(0)));
        while i < found.len()
            invariant
                i <= found@.len(),
                ref_views(refs@) == v1.references + ref_views(found@.take(i as int)),
            decreases found@.len() - i,
        {
            push_reference(&mut refs, found[i].duplicate());
            assert(ref_views(found@.take(i + 1)) =~= ref_views(found@.take(i as int)).push(ref_view(found@[i as int])));
            assert(ref_views(refs@) =~= v1.references + ref_views(found@.take(i + 1)));
            i = i + 1;
        }
        assert(found@.take(i as int) =~= found@);
        self.references = refs;
        assert(self@ =~= recorded(old(self)@, uri@, *root));
    }

    /// Indexes a document's text anew: what was recorded for `uri` is
    /// removed, the text is parsed, and the definition and references that
    /// its tree declares are recorded. Never fails: text that yields no
    /// syntax tree has a null tree, which records nothing.
    pub fn index_document(&mut self, uri: &str, content: &str) -> (r: Result<(), String>)
        ensures
            index_wf(final(self)@),
            r is Ok,
            exists|root: Node|
                #[trigger] indexed(old(self)@, uri@, root) == final(self)@ && well_nested(root) && ((exists|
                    syn: SyntaxNode,
                | #[trigger] root_built(root, syn)) || root.value is Null),
    {
        proof { use_type_invariant(&*self); }
        self.remove_document(uri);
        let doc = match parse_yaml(uri, content) {
            Ok(d) => d,
            Err(e) => return Err(e),
        };
        self.index_tree(uri, &doc.root);
        assert(indexed(old(self)@, uri@, doc.root) == self@);
        Ok(())
    }

    /// Copies of all definitions.
    pub fn all_resources(&self) -> (r: Vec<ResourceDefinition>)
        ensures
            def_views(r@) == self@.definitions,
    {
        let mut out: Vec<ResourceDefinition> = Vec::new();
        let mut i: usize = 0;
        while i < self.resources.len()
            invariant
                i <= self.resources@.len(),
                def_views(out@) == def_views(self.resources@).take(i as int),
            decreases self.resources@.len() - i,
        {
            let d = self.resources[i].duplicate();
            let ghost prev = out@;
            out.push(d);
            assert(def_views(out@) =~= def_views(prev).push(def_view(d)));
            assert(def_views(out@) =~= def_views(self.resources@).take(i + 1));
            i = i + 1;
        }
        assert(def_views(self.resources@).take(i as int) =~= def_views(self.resources@));
        out
    }
}

impl Default for WorkspaceIndex {
    fn default() -> (r: Self)
        ensures
            index_wf(r@),
            r@.definitions.len() == 0,
            r@.references.len() == 0,
            r@.owners.len() == 0,
    {
        WorkspaceIndex::new()
    }
}

/// The references made from `uri`.
pub open spec fn from_uri(uri: Seq<char>) -> spec_fn(ReferenceView) -> bool {
    |r: ReferenceView| r.uri == uri
}

proof fn lemma_filter_keeps_all<A>(s: Seq<A>, p: spec_fn(A) -> bool)
    requires
        forall|i: int| 0 <= i < s.len() ==> p(#[trigger] s[i]),
    ensures
        s.filter(p) == s,
    decreases s.len(),
{
    reveal(Seq::filter);
    if s.len() > 0 {
        lemma_filter_keeps_all(s.drop_last(), p);
        assert(s.drop_last().push(s.last()) =~= s);
    }
}

proof fn lemma_filter_keeps_none<A>(s: Seq<A>, p: spec_fn(A) -> bool)
    requires
        forall|i: int| 0 <= i < s.len() ==> !p(#[trigger] s[i]),
    ensures
        s.filter(p) == Seq::<A>::empty(),
    decreases s.len(),
{
    reveal(Seq::filter);
    if s.len() > 0 {
        lemma_filter_keeps_none(s.drop_last(), p);
    }
}

proof fn lemma_task_refs_from(uri: Seq<char>, tasks: Seq<Node>)
    ensures
        forall|i: int| 0 <= i < task_refs(uri, tasks).len() ==> (#[trigger] task_refs(uri, tasks)[i]).uri == uri,
    decreases tasks.len(),
{
    if tasks.len() > 0 {
        lemma_task_refs_from(uri, tasks.drop_last());
        let a = task_refs(uri, tasks.drop_last());
        let b = match spec_get(tasks.last(), "taskRef"@) {
            Some(task_ref) => task_ref_of(uri, task_ref),
            None => Seq::empty(),
        };
        assert(task_refs(uri, tasks) == a + b);
        assert forall|i: int| 0 <= i < (a + b).len() implies (#[trigger] (a + b)[i]).uri == uri by {
            if i >= a.len() {
                assert((a + b)[i] == b[i - a.len()]);
            }
        }
    }
}

proof fn lemma_task_list_refs_from(uri: Seq<char>, list: Option<Node>)
    ensures
        forall|i: int| 0 <= i < task_list_refs(uri, list).len() ==> (#[trigger] task_list_refs(uri, list)[i]).uri == uri,
{
    if let Some(n) = list {
        if let NodeValue::Sequence(items) = n.value {
            lemma_task_refs_from(uri, items@);
        }
    }
}

proof fn lemma_extracted_refs_from(uri: Seq<char>, root: Node)
    ensures
        forall|i: int| 0 <= i < extract_references(uri, root).len() ==> (#[trigger] extract_references(uri, root)[i]).uri == uri,
{
    if let Some(spec) = spec_get(root, "spec"@) {
        lemma_task_list_refs_from(uri, spec_get(spec, "tasks"@));
        lemma_task_list_refs_from(uri, spec_get(spec, "finally"@));
        let a = task_list_refs(uri, spec_get(spec, "tasks"@));
        let b = task_list_refs(uri, spec_get(spec, "finally"@));
        assert forall|i: int| 0 <= i < (a + b).len() implies (#[trigger] (a + b)[i]).uri == uri by {
            if i >= a.len() {
                assert((a + b)[i] == b[i - a.len()]);
            }
        }
    }
}

/// Removing a document twice in a row leaves the index as removing it once.
pub proof fn lemma_remove_idempotent(v: IndexView, uri: Seq<char>)
    ensures
        removed(removed(v, uri), uri) == removed(v, uri),
{
    let r = removed(v, uri);
    assert forall|i: int| 0 <= i < r.definitions.len() implies #[trigger] not_declared_in(uri)(
        r.definitions[i],
    ) by {
    }
    lemma_filter_keeps_all(r.definitions, not_declared_in(uri));
    lemma_filter_keeps_all(r.references, not_from(uri));
    lemma_filter_keeps_all(r.owners, other_owner(uri));
}

/// Indexing a document anew leaves nothing of what it held before: every
/// definition attributed to it is the one its new tree declares, and the
/// references made from it are exactly those its new tree makes, in order.
pub proof fn lemma_reindex_replaces(v: IndexView, uri: Seq<char>, root: Node)
    requires
        index_wf(v),
    ensures
        forall|i: int|
            0 <= i < indexed(v, uri, root).definitions.len() && (#[trigger] indexed(v, uri, root).definitions[i]).uri
                == uri ==> extract_definition(uri, root) == Some(indexed(v, uri, root).definitions[i]),
        indexed(v, uri, root).references.filter(from_uri(uri)) == extract_references(uri, root),
{
    let r = removed(v, uri);
    let w = indexed(v, uri, root);
    lemma_removed_wf(v, uri);
    // What remains after the removal was declared elsewhere.
    assert forall|i: int| 0 <= i < r.definitions.len() implies (#[trigger] r.definitions[i]).uri != uri by {
        assert(not_declared_in(uri)(r.definitions[i]));
    }
    assert forall|i: int|
        0 <= i < w.definitions.len() && (#[trigger] w.definitions[i]).uri == uri implies extract_definition(
        uri,
        root,
    ) == Some(w.definitions[i]) by {
        if let Some(d) = extract_definition(uri, root) {
            let f = r.definitions.filter(other_key(d.kind, d.name));
            if i < f.len() {
                let e = f[i];
                assert(f.contains(e));
                r.definitions.lemma_filter_contains_rev(other_key(d.kind, d.name), e);
            }
        }
    }
    lemma_extracted_refs_from(uri, root);
    let x = extract_references(uri, root);
    assert forall|i: int| 0 <= i < r.references.len() implies !from_uri(uri)(#[trigger] r.references[i]) by {
        assert(not_from(uri)(r.references[i]));
    }
    lemma_filter_keeps_none(r.references, from_uri(uri));
    lemma_filter_keeps_all(x, from_uri(uri));
    Seq::filter_distributes_over_add(r.references, x, from_uri(uri));
    assert(w.references == r.references + x);
    assert(Seq::<ReferenceView>::empty() + x =~= x);
}

} // verus!

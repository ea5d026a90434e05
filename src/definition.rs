//! Go-to-definition: from a `taskRef` or `pipelineRef` name to the resource
//! it names.

use vstd::prelude::*;
use crate::ast::{spec_get, spec_scalar, top_scalar, top_scalar_text, Node, NodeValue, YamlDocument};
use crate::position::{position_in_range, spec_position_in_range, Position};
use crate::text::str_eq;
use crate::ast::well_nested;
use crate::syntax::{root_built, SyntaxNode};
use crate::workspace::{indexed, lookup_definition, removed, Location, WorkspaceIndex};

verus! {

/// The kind and name that a reference node names, when `pos` is on its
/// `name`: its `kind`, or where it gives none `Task` for a `taskRef` and
/// `Pipeline` for a `pipelineRef`.
pub open spec fn reference_here(n: Node, pos: Position) -> Option<(Seq<char>, Seq<char>)> {
    match n.key {
        Some(k) => if k@ == "taskRef"@ || k@ == "pipelineRef"@ {
            match spec_get(n, "name"@) {
                Some(name_node) => if spec_position_in_range(pos, name_node.range) {
                    match spec_scalar(name_node) {
                        Some(name) => Some(
                            (
                                match top_scalar(n, "kind"@) {
                                    Some(kind) => kind,
                                    None => if k@ == "taskRef"@ {
                                        "Task"@
                                    } else {
                                        "Pipeline"@
                                    },
                                },
                                name,
                            ),
                        ),
                        None => None,
                    }
                } else {
                    None
                },
                None => None,
            }
        } else {
            None
        },
        None => None,
    }
}

/// The reference that a depth-first search for `pos` finds: with `i < 0`,
/// in the whole subtree of `n` (`n` itself first); with `i >= 0`, among the
/// subtrees of the children of `n` from the `i`th on.
pub open spec fn reference_at(n: Node, pos: Position, i: int) -> Option<(Seq<char>, Seq<char>)>
    decreases n, match n.value {
        NodeValue::Mapping(items) => items@.len() - i,
        NodeValue::Sequence(items) => items@.len() - i,
        _ => 0 - i,
    },
{
    if i < 0 {
        if !spec_position_in_range(pos, n.range) {
            None
        } else {
            match reference_here(n, pos) {
                Some(c) => Some(c),
                None => reference_at(n, pos, 0),
            }
        }
    } else {
        match n.value {
            NodeValue::Mapping(items) => if i >= items@.len() {
                None
            } else {
                match reference_at(items@[i], pos, -1) {
                    Some(c) => Some(c),
                    None => reference_at(n, pos, i + 1),
                }
            },
            NodeValue::Sequence(items) => if i >= items@.len() {
                None
            } else {
                match reference_at(items@[i], pos, -1) {
                    Some(c) => Some(c),
                    None => reference_at(n, pos, i + 1),
                }
            },
            _ => None,
        }
    }
}

fn reference_in_node(node: &Node, position: Position) -> (r: Option<(String, String)>)
    ensures
        match r {
            Some((k, n)) => reference_here(*node, position) == Some((k@, n@)),
            None => reference_here(*node, position) is None,
        },
{
    let key = match &node.key {
        Some(k) => k,
        None => return None,
    };
    let is_task = str_eq(key.as_str(), "taskRef");
    if !is_task && !str_eq(key.as_str(), "pipelineRef") {
        return None;
    }
    let name_node = match node.get("name") {
        Some(n) => n,
        None => return None,
    };
    if !position_in_range(position, name_node.range) {
        return None;
    }
    let name = match name_node.as_scalar() {
        Some(s) => s.to_owned(),
        None => return None,
    };
    let kind = match top_scalar_text(node, "kind") {
        Some(k) => k,
        None => if is_task {
            "Task".to_owned()
        } else {
            "Pipeline".to_owned()
        },
    };
    Some((kind, name))
}

/// The kind and name of the resource referenced at `position`: the first
/// reference name containing it in a depth-first search, parents before
/// children.
pub fn find_reference_context(node: &Node, position: Position) -> (r: Option<(String, String)>)
    ensures
        match r {
            Some((k, n)) => reference_at(*node, position, -1) == Some((k@, n@)),
            None => reference_at(*node, position, -1) is None,
        },
    decreases node,
{
    if !position_in_range(position, node.range) {
        return None;
    }
    if let Some(c) = reference_in_node(node, position) {
        return Some(c);
    }
    let items = match &node.value {
        NodeValue::Mapping(items) => items,
        NodeValue::Sequence(items) => items,
        _ => {
            return None;
        },
    };
    let mut i: usize = 0;
    while i < items.len()
        invariant
            i <= items@.len(),
            node.value is Mapping || node.value is Sequence,
            match node.value {
                NodeValue::Mapping(v) => v == *items,
                NodeValue::Sequence(v) => v == *items,
                _ => false,
            },
            reference_at(*node, position, 0) == reference_at(*node, position, i as int),
            reference_here(*node, position) is None,
            spec_position_in_range(position, node.range),
        decreases items@.len() - i,
    {
        let child = &items[i];
        let found = find_reference_context(child, position);
        assert(reference_at(*node, position, i as int) == match reference_at(items@[i as int], position, -1) {
            Some(c) => Some(c),
            None => reference_at(*node, position, i + 1),
        });
        if let Some(c) = found {
            return Some(c);
        }
        i = i + 1;
    }
    None
}

/// Resolves references to their definitions in a workspace index.
#[derive(Debug)]
pub struct DefinitionProvider {
    index: WorkspaceIndex,
}

impl DefinitionProvider {
    pub closed spec fn spec_index(&self) -> WorkspaceIndex {
        self.index
    }

    pub fn new(index: WorkspaceIndex) -> (r: Self)
        ensures
            r.spec_index() == index,
    {
        DefinitionProvider { index }
    }

    /// The workspace index the provider resolves in.
    pub fn index(&self) -> (r: &WorkspaceIndex)
        ensures
            *r == self.spec_index(),
    {
        &self.index
    }

    /// Indexes a document anew; see `WorkspaceIndex::index_document`.
    pub fn index_document(&mut self, uri: &str, content: &str) -> (r: Result<(), String>)
        ensures
            r is Ok,
            exists|root: Node|
                #[trigger] indexed(old(self).spec_index()@, uri@, root) == final(self).spec_index()@ && well_nested(
                    root,
                ) && ((exists|syn: SyntaxNode| #[trigger] root_built(root, syn)) || root.value is Null),
    {
        let ghost before = self.index@;
        let r = self.index.index_document(uri, content);
        proof {
            let root = choose|root: Node|
                #[trigger] indexed(before, uri@, root) == self.index@ && well_nested(root) && ((exists|
                    syn: SyntaxNode,
                | #[trigger] root_built(root, syn)) || root.value is Null);
            assert(indexed(old(self).spec_index()@, uri@, root) == self.spec_index()@);
        }
        r
    }

    /// Removes what was indexed for a document.
    pub fn remove_document(&mut self, uri: &str)
        ensures
            final(self).spec_index()@ == removed(old(self).spec_index()@, uri@),
    {
        self.index.remove_document(uri)
    }

    /// Where the resource referenced at `position` is defined.
    pub fn provide_definition(&self, yaml_doc: &YamlDocument, position: Position) -> (r: Option<Location>)
        ensures
            match r {
                Some(loc) => exists|c: (Seq<char>, Seq<char>)|
                    reference_at(yaml_doc.root, position, -1) == Some(c) && #[trigger] lookup_definition(
                        self.spec_index()@.definitions,
                        c.0,
                        c.1,
                    ) is Some && loc.uri@ == lookup_definition(self.spec_index()@.definitions, c.0, c.1)->0.location_uri
                        && loc.range == lookup_definition(self.spec_index()@.definitions, c.0, c.1)->0.range,
                None => match reference_at(yaml_doc.root, position, -1) {
                    Some(c) => lookup_definition(self.spec_index()@.definitions, c.0, c.1) is None,
                    None => true,
                },
            },
    {
        let (kind, name) = match find_reference_context(&yaml_doc.root, position) {
            Some(c) => c,
            None => return None,
        };
        match self.index.find_resource(kind.as_str(), name.as_str()) {
            Some(d) => {
                assert(lookup_definition(self.spec_index()@.definitions, kind@, name@) is Some);
                Some(d.location)
            },
            None => None,
        }
    }
}

} // verus!

//! The range-annotated tree that a YAML document is parsed into.

use vstd::prelude::*;
use crate::position::{
    position_in_range, pos_le, range_ordered, range_within, spec_position_in_range, Position,
    Range,
};
use crate::text::str_eq;

verus! {

/// A node of the tree, with the exact source range it spans.
#[derive(Debug)]
pub struct Node {
    /// The key under which this node stands, when it is a mapping value.
    pub key: Option<String>,
    pub value: NodeValue,
    /// For a mapping value, the range covers the key and the value together.
    pub range: Range,
}

/// What a node holds.
#[derive(Debug)]
pub enum NodeValue {
    /// A leaf, in its literal source form.
    Scalar(String),
    /// Key/value pairs in source order; each entry carries its key.
    Mapping(Vec<Node>),
    /// Items in source order.
    Sequence(Vec<Node>),
    Null,
}

/// A syntax problem found while parsing.
#[derive(Debug, Clone)]
pub struct SyntaxDiagnostic {
    pub range: Range,
    pub message: String,
}

/// The direct children of a node (mapping entries or sequence items).
pub open spec fn children_of(n: Node) -> Seq<Node> {
    match n.value {
        NodeValue::Mapping(items) => items@,
        NodeValue::Sequence(items) => items@,
        _ => Seq::empty(),
    }
}

/// `n` stands under the key `key`.
pub open spec fn has_key(n: Node, key: Seq<char>) -> bool {
    match n.key {
        Some(k) => k@ == key,
        None => false,
    }
}

/// The last entry of `entries` whose key is `key`.
pub open spec fn last_with_key(entries: Seq<Node>, key: Seq<char>) -> Option<Node>
    decreases entries.len(),
{
    if entries.len() == 0 {
        None
    } else if has_key(entries.last(), key) {
        Some(entries.last())
    } else {
        last_with_key(entries.drop_last(), key)
    }
}

/// What looking up `key` in a node gives: for a mapping, its last entry
/// under that key; nothing otherwise.
pub open spec fn spec_get(n: Node, key: Seq<char>) -> Option<Node> {
    match n.value {
        NodeValue::Mapping(items) => last_with_key(items@, key),
        _ => None,
    }
}

/// The scalar text of a node, if it is a scalar.
pub open spec fn spec_scalar(n: Node) -> Option<Seq<char>> {
    match n.value {
        NodeValue::Scalar(s) => Some(s@),
        _ => None,
    }
}

/// Every range in the tree is ordered and every child's range lies within
/// its parent's.
pub open spec fn well_nested(n: Node) -> bool
    decreases n,
{
    &&& range_ordered(n.range)
    &&& match n.value {
        NodeValue::Mapping(items) => forall|i: int|
            0 <= i < items@.len() ==> range_within(#[trigger] items@[i].range, n.range)
                && well_nested(items@[i]),
        NodeValue::Sequence(items) => forall|i: int|
            0 <= i < items@.len() ==> range_within(#[trigger] items@[i].range, n.range)
                && well_nested(items@[i]),
        _ => true,
    }
}

/// A mapping or sequence node is well nested when its range is ordered and
/// each child lies within it and is well nested.
pub proof fn lemma_well_nested_parent(n: Node)
    requires
        range_ordered(n.range),
        forall|j: int|
            0 <= j < children_of(n).len() ==> range_within(#[trigger] children_of(n)[j].range, n.range)
                && well_nested(children_of(n)[j]),
    ensures
        well_nested(n),
{
    match n.value {
        NodeValue::Mapping(items) => {
            assert forall|i: int| 0 <= i < items@.len() implies range_within(
                #[trigger] items@[i].range,
                n.range,
            ) && well_nested(items@[i]) by {
                assert(children_of(n)[i] == items@[i]);
            }
        },
        NodeValue::Sequence(items) => {
            assert forall|i: int| 0 <= i < items@.len() implies range_within(
                #[trigger] items@[i].range,
                n.range,
            ) && well_nested(items@[i]) by {
                assert(children_of(n)[i] == items@[i]);
            }
        },
        _ => {},
    }
}

impl Node {
    pub fn new(key: Option<String>, value: NodeValue, range: Range) -> (r: Self)
        ensures
            r.key == key,
            r.value == value,
            r.range == range,
    {
        Node { key, value, range }
    }

    /// The entry under `key` of a mapping (the last one, where a key repeats).
    pub fn get(&self, key: &str) -> (r: Option<&Node>)
        ensures
            match r {
                Some(n) => spec_get(*self, key@) == Some(*n),
                None => spec_get(*self, key@) is None,
            },
    {
        match &self.value {
            NodeValue::Mapping(items) => {
                let mut i = items.len();
                assert(items@.subrange(0, i as int) =~= items@);
                assert(spec_get(*self, key@) == last_with_key(items@, key@));
                while i > 0
                    invariant
                        i <= items@.len(),
                        spec_get(*self, key@) == last_with_key(items@, key@),
                        last_with_key(items@, key@) == last_with_key(items@.subrange(0, i as int), key@),
                    decreases i,
                {
                    let entry = &items[i - 1];
                    proof {
                        let s = items@.subrange(0, i as int);
                        assert(s.last() == items@[i - 1]);
                        assert(s.drop_last() =~= items@.subrange(0, i - 1));
                    }
                    let hit = match &entry.key {
                        Some(k) => str_eq(k.as_str(), key),
                        None => false,
                    };
                    if hit {
                        assert(has_key(*entry, key@));
                        assert(last_with_key(items@.subrange(0, i as int), key@) == Some(*entry));
                        return Some(entry);
                    }
                    i = i - 1;
                }
                None
            },
            _ => None,
        }
    }

    /// The text of a scalar node.
    pub fn as_scalar(&self) -> (r: Option<&str>)
        ensures
            match r {
                Some(s) => spec_scalar(*self) == Some(s@),
                None => spec_scalar(*self) is None,
            },
    {
        match &self.value {
            NodeValue::Scalar(s) => Some(s.as_str()),
            _ => None,
        }
    }

    pub fn is_mapping(&self) -> (r: bool)
        ensures
            r == (self.value is Mapping),
    {
        matches!(self.value, NodeValue::Mapping(_))
    }

    pub fn is_sequence(&self) -> (r: bool)
        ensures
            r == (self.value is Sequence),
    {
        matches!(self.value, NodeValue::Sequence(_))
    }

    pub fn is_scalar(&self) -> (r: bool)
        ensures
            r == (self.value is Scalar),
    {
        matches!(self.value, NodeValue::Scalar(_))
    }
}

/// A parsed document, with the fields that consumers look up most.
#[derive(Debug)]
pub struct YamlDocument {
    /// The name or URI that the document was parsed under.
    pub filename: String,
    pub root: Node,
    /// The scalar under the top-level `apiVersion` key.
    pub api_version: Option<String>,
    /// The scalar under the top-level `kind` key.
    pub kind: Option<String>,
    /// Syntax problems that the parser recovered from.
    pub diagnostics: Vec<SyntaxDiagnostic>,
}

/// The characters of an optional string.
pub open spec fn opt_chars(o: Option<String>) -> Option<Seq<char>> {
    match o {
        Some(s) => Some(s@),
        None => None,
    }
}

/// The scalar text under `key` at the top of a node.
pub open spec fn top_scalar(root: Node, key: Seq<char>) -> Option<Seq<char>> {
    match spec_get(root, key) {
        Some(n) => spec_scalar(n),
        None => None,
    }
}

/// The node found at `pos` is the deepest one on the first path of
/// containing nodes: it contains `pos` and none of its children does.
pub open spec fn innermost_at(m: Node, pos: Position) -> bool {
    &&& spec_position_in_range(pos, m.range)
    &&& forall|i: int|
        0 <= i < children_of(m).len() ==> !spec_position_in_range(
            pos,
            #[trigger] children_of(m)[i].range,
        )
}

/// The node that a depth-first search for `pos` finds: with `i < 0`, in the
/// whole subtree of `n` (its children first, in order, then `n` itself);
/// with `i >= 0`, among the subtrees of the children of `n` from the `i`th on.
pub open spec fn node_at(n: Node, pos: Position, i: int) -> Option<Node>
    decreases n, children_of(n).len() - i,
{
    if i < 0 {
        if !spec_position_in_range(pos, n.range) {
            None
        } else {
            match node_at(n, pos, 0) {
                Some(m) => Some(m),
                None => Some(n),
            }
        }
    } else {
        match n.value {
            NodeValue::Mapping(items) => if i >= items@.len() {
                None
            } else {
                match node_at(items@[i], pos, -1) {
                    Some(m) => Some(m),
                    None => node_at(n, pos, i + 1),
                }
            },
            NodeValue::Sequence(items) => if i >= items@.len() {
                None
            } else {
                match node_at(items@[i], pos, -1) {
                    Some(m) => Some(m),
                    None => node_at(n, pos, i + 1),
                }
            },
            _ => None,
        }
    }
}

/// Copies the scalar text under `key` at the top of `root`.
pub(crate) fn top_scalar_text(root: &Node, key: &str) -> (r: Option<String>)
    ensures
        opt_chars(r) == top_scalar(*root, key@),
{
    match root.get(key) {
        Some(n) => match n.as_scalar() {
            Some(s) => Some(s.to_owned()),
            None => None,
        },
        None => None,
    }
}

impl YamlDocument {
    /// Wraps a tree, looking up its `apiVersion` and `kind` once.
    pub fn new(filename: String, root: Node) -> (r: Self)
        ensures
            r.filename@ == filename@,
            r.root == root,
            opt_chars(r.api_version) == top_scalar(root, "apiVersion"@),
            opt_chars(r.kind) == top_scalar(root, "kind"@),
            r.diagnostics@.len() == 0,
    {
        let api_version = top_scalar_text(&root, "apiVersion");
        let kind = top_scalar_text(&root, "kind");
        YamlDocument { filename, root, api_version, kind, diagnostics: Vec::new() }
    }

    /// The most specific node whose range contains `position`.
    pub fn find_node_at_position(&self, position: Position) -> (r: Option<&Node>)
        ensures
            r is None <==> !spec_position_in_range(position, self.root.range),
            match r {
                Some(m) => innermost_at(*m, position) && node_at(self.root, position, -1) == Some(*m),
                None => node_at(self.root, position, -1) is None,
            },
    {
        find_node_at_position_recursive(&self.root, position)
    }
}

/// Depth-first search for the most specific node containing `position`,
/// children in source order.
pub fn find_node_at_position_recursive(node: &Node, position: Position) -> (r: Option<&Node>)
    ensures
        r is None <==> !spec_position_in_range(position, node.range),
        match r {
            Some(m) => innermost_at(*m, position) && node_at(*node, position, -1) == Some(*m),
            None => node_at(*node, position, -1) is None,
        },
    decreases node,
{
    if !position_in_range(position, node.range) {
        return None;
    }
    let items = match &node.value {
        NodeValue::Mapping(items) => items,
        NodeValue::Sequence(items) => items,
        _ => {
            return Some(node);
        },
    };
    assert(items@ == children_of(*node));
    let mut i: usize = 0;
    while i < items.len()
        invariant
            i <= items@.len(),
            items@ == children_of(*node),
            spec_position_in_range(position, node.range),
            forall|j: int| 0 <= j < i ==> !spec_position_in_range(position, #[trigger] items@[j].range),
            node_at(*node, position, 0) == node_at(*node, position, i as int),
            node.value is Mapping || node.value is Sequence,
        decreases items@.len() - i,
    {
        let child = &items[i];
        let found = find_node_at_position_recursive(child, position);
        assert(node_at(*node, position, i as int) == match node_at(items@[i as int], position, -1) {
            Some(m) => Some(m),
            None => node_at(*node, position, i + 1),
        });
        if let Some(found) = found {
            return Some(found);
        }
        i = i + 1;
    }
    assert(node_at(*node, position, i as int) is None);
    Some(node)
}

} // verus!

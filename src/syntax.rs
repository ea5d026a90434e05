//! The syntax tree of a YAML text in plain values, and how the
//! range-annotated tree is built from it.

use vstd::prelude::*;
use crate::ast::{lemma_well_nested_parent, opt_chars, top_scalar, well_nested, Node, NodeValue, SyntaxDiagnostic, YamlDocument};
use crate::position::{
    Position, clamp_range, clamp_spec, order_range, order_spec, range_ordered, range_within, span_range, span_spec, Range,
};
use crate::text::str_eq;

verus! {

/// A node of the grammar's syntax tree.
#[derive(Debug)]
pub struct SyntaxNode {
    /// The grammar's name for the node.
    pub kind: String,
    /// The field under which the node stands in its parent.
    pub field: Option<String>,
    /// Its extent, columns counted in characters.
    pub range: Range,
    /// The source text it covers.
    pub text: String,
    /// The node is a syntax error.
    pub is_error: bool,
    /// The parser inserted the node to recover from an error.
    pub is_missing: bool,
    /// The node is or holds a syntax error.
    pub has_error: bool,
    pub children: Vec<SyntaxNode>,
}

/// How deep the syntax tree is followed; anything deeper becomes a null node.
pub const MAX_DEPTH: usize = 1000;

pub open spec fn kind_is(n: SyntaxNode, k: Seq<char>) -> bool {
    n.kind@ == k
}

pub open spec fn is_pair(n: SyntaxNode) -> bool {
    kind_is(n, "block_mapping_pair"@) || kind_is(n, "flow_pair"@)
}

/// The first of `cs` from the `i`th on that stands under field `f`.
pub open spec fn first_field(cs: Seq<SyntaxNode>, f: Seq<char>, i: int) -> Option<SyntaxNode>
    decreases cs.len() - i,
{
    if i < 0 || i >= cs.len() {
        None
    } else if opt_chars(cs[i].field) == Some(f) {
        Some(cs[i])
    } else {
        first_field(cs, f, i + 1)
    }
}

/// A mapping pair with both a key and a value.
pub open spec fn full_pair(n: SyntaxNode) -> bool {
    is_pair(n) && first_field(n.children@, "key"@, 0) is Some && first_field(n.children@, "value"@, 0) is Some
}

/// The full pairs among `cs`, in order.
pub open spec fn pair_list(cs: Seq<SyntaxNode>) -> Seq<SyntaxNode>
    decreases cs.len(),
{
    if cs.len() == 0 {
        Seq::empty()
    } else if full_pair(cs.last()) {
        pair_list(cs.drop_last()).push(cs.last())
    } else {
        pair_list(cs.drop_last())
    }
}

/// The value that a child of a sequence contributes: the node after a
/// block item's `-` marker, or a flow item itself.
pub open spec fn item_value(c: SyntaxNode) -> Option<SyntaxNode> {
    if kind_is(c, "block_sequence_item"@) {
        if c.children@.len() >= 2 {
            Some(c.children@[1])
        } else {
            None
        }
    } else if kind_is(c, "flow_node"@) {
        Some(c)
    } else {
        None
    }
}

/// The item values among the children of a sequence, in order.
pub open spec fn value_list(cs: Seq<SyntaxNode>) -> Seq<SyntaxNode>
    decreases cs.len(),
{
    if cs.len() == 0 {
        Seq::empty()
    } else {
        match item_value(cs.last()) {
            Some(v) => value_list(cs.drop_last()).push(v),
            None => value_list(cs.drop_last()),
        }
    }
}

/// Nodes that stand for their first child.
pub open spec fn wrapper_kind(n: SyntaxNode) -> bool {
    kind_is(n, "stream"@) || kind_is(n, "document"@) || kind_is(n, "flow_node"@)
}

/// Nodes read as a mapping: mappings, and error regions that hold pairs.
pub open spec fn mapping_kind(n: SyntaxNode) -> bool {
    kind_is(n, "block_mapping"@) || kind_is(n, "flow_mapping"@) || (kind_is(n, "ERROR"@) && exists|i: int|
        0 <= i < n.children@.len() && #[trigger] is_pair(n.children@[i]))
}

pub open spec fn sequence_kind(n: SyntaxNode) -> bool {
    kind_is(n, "block_sequence"@) || kind_is(n, "flow_sequence"@)
}

pub open spec fn scalar_kind(n: SyntaxNode) -> bool {
    kind_is(n, "plain_scalar"@) || kind_is(n, "single_quote_scalar"@) || kind_is(n, "double_quote_scalar"@)
        || kind_is(n, "block_scalar"@)
}

pub open spec fn null_kind(n: SyntaxNode) -> bool {
    kind_is(n, "null"@) || kind_is(n, "null_scalar"@)
}

/// The node's own range, ordered and shrunk into `bound`.
pub open spec fn own_range(n: SyntaxNode, bound: Range) -> Range {
    clamp_spec(order_spec(n.range), bound)
}

/// The range of a mapping entry: its key and value together, shrunk into
/// the mapping's range.
pub open spec fn entry_range(pair: SyntaxNode, bound: Range) -> Range {
    clamp_spec(
        span_spec(
            order_spec(first_field(pair.children@, "key"@, 0)->0.range),
            order_spec(first_field(pair.children@, "value"@, 0)->0.range),
        ),
        bound,
    )
}

/// The range of the tree node built from `n`: a node that stands for its
/// first child takes that child's.
pub open spec fn range_built(n: SyntaxNode, bound: Range, depth: nat) -> Range
    decreases depth,
{
    if depth == 0 {
        own_range(n, bound)
    } else if wrapper_kind(n) || !(mapping_kind(n) || sequence_kind(n) || scalar_kind(n) || null_kind(n)) {
        if n.children@.len() > 0 {
            range_built(n.children@[0], bound, (depth - 1) as nat)
        } else {
            own_range(n, bound)
        }
    } else {
        own_range(n, bound)
    }
}

/// The value of the tree node built from `n`, within `bound`, following the
/// syntax tree at most `depth` levels down:
/// - a stream, document or flow node, or a node of another kind with
///   children, stands for its first child;
/// - a mapping holds one entry per full pair, in order: keyed by the key's
///   text, spanning key and value, holding the value built within that span;
/// - a sequence holds one unkeyed item per item value, in order;
/// - a scalar keeps its literal text; a null, or a childless node of another
///   kind without text, is null; one with text is a scalar of it.
pub open spec fn value_built(v: NodeValue, n: SyntaxNode, bound: Range, depth: nat) -> bool
    decreases depth,
{
    let own = own_range(n, bound);
    if depth == 0 {
        v is Null
    } else if wrapper_kind(n) {
        if n.children@.len() > 0 {
            value_built(v, n.children@[0], bound, (depth - 1) as nat)
        } else {
            v is Null
        }
    } else if mapping_kind(n) {
        let pairs = pair_list(n.children@);
        match v {
            NodeValue::Mapping(items) => {
                &&& items@.len() == pairs.len()
                &&& forall|i: int|
                    0 <= i < items@.len() ==> {
                        &&& opt_chars(#[trigger] items@[i].key) == Some(
                            first_field(pairs[i].children@, "key"@, 0)->0.text@,
                        )
                        &&& items@[i].range == entry_range(pairs[i], own)
                        &&& value_built(
                            items@[i].value,
                            first_field(pairs[i].children@, "value"@, 0)->0,
                            entry_range(pairs[i], own),
                            (depth - 1) as nat,
                        )
                    }
            },
            _ => false,
        }
    } else if sequence_kind(n) {
        let vals = value_list(n.children@);
        match v {
            NodeValue::Sequence(items) => {
                &&& items@.len() == vals.len()
                &&& forall|i: int|
                    0 <= i < items@.len() ==> {
                        &&& (#[trigger] items@[i]).key is None
                        &&& items@[i].range == range_built(vals[i], own, (depth - 1) as nat)
                        &&& value_built(items@[i].value, vals[i], own, (depth - 1) as nat)
                    }
            },
            _ => false,
        }
    } else if scalar_kind(n) {
        match v {
            NodeValue::Scalar(s) => s@ == n.text@,
            _ => false,
        }
    } else if null_kind(n) {
        v is Null
    } else if n.children@.len() > 0 {
        value_built(v, n.children@[0], bound, (depth - 1) as nat)
    } else if n.text@.len() == 0 {
        v is Null
    } else {
        match v {
            NodeValue::Scalar(s) => s@ == n.text@,
            _ => false,
        }
    }
}

/// `r` is the tree node built from `n` under `key`.
pub open spec fn built(r: Node, n: SyntaxNode, key: Option<Seq<char>>, bound: Range, depth: nat) -> bool {
    &&& opt_chars(r.key) == key
    &&& r.range == range_built(n, bound, depth)
    &&& value_built(r.value, n, bound, depth)
}

fn copy_opt(o: &Option<String>) -> (r: Option<String>)
    ensures
        opt_chars(r) == opt_chars(*o),
{
    match o {
        Some(s) => Some(s.clone()),
        None => None,
    }
}

/// The first of `cs` from the `i`th on that stands under field `f`.
fn find_field<'a>(cs: &'a Vec<SyntaxNode>, f: &str) -> (r: Option<&'a SyntaxNode>)
    ensures
        match r {
            Some(x) => first_field(cs@, f@, 0) == Some(*x),
            None => first_field(cs@, f@, 0) is None,
        },
{
    let mut i: usize = 0;
    while i < cs.len()
        invariant
            i <= cs@.len(),
            first_field(cs@, f@, 0) == first_field(cs@, f@, i as int),
        decreases cs@.len() - i,
    {
        let hit = match &cs[i].field {
            Some(name) => str_eq(name.as_str(), f),
            None => false,
        };
        if hit {
            return Some(&cs[i]);
        }
        i = i + 1;
    }
    None
}

fn pair_kind(n: &SyntaxNode) -> (r: bool)
    ensures
        r == is_pair(*n),
{
    str_eq(n.kind.as_str(), "block_mapping_pair") || str_eq(n.kind.as_str(), "flow_pair")
}

fn has_pair_child(n: &SyntaxNode) -> (r: bool)
    ensures
        r == exists|i: int| 0 <= i < n.children@.len() && #[trigger] is_pair(n.children@[i]),
{
    let mut i: usize = 0;
    while i < n.children.len()
        invariant
            i <= n.children@.len(),
            forall|j: int| 0 <= j < i ==> !is_pair(#[trigger] n.children@[j]),
        decreases n.children@.len() - i,
    {
        if pair_kind(&n.children[i]) {
            return true;
        }
        i = i + 1;
    }
    false
}

/// The entry built from a full mapping pair.
fn build_entry(p: &SyntaxNode, bound: Range, depth: usize) -> (r: Node)
    requires
        full_pair(*p),
        range_ordered(bound),
    ensures
        opt_chars(r.key) == Some(first_field(p.children@, "key"@, 0)->0.text@),
        r.range == entry_range(*p, bound),
        value_built(r.value, first_field(p.children@, "value"@, 0)->0, entry_range(*p, bound), depth as nat),
        range_within(r.range, bound),
        well_nested(r),
    decreases depth, 2nat,
{
    let k = find_field(&p.children, "key").unwrap();
    let v = find_field(&p.children, "value").unwrap();
    let range = clamp_range(span_range(order_range(k.range), order_range(v.range)), bound);
    let value = build_node(v, None, range, depth);
    Node::new(Some(k.text.clone()), value.value, range)
}

/// Builds the tree node for a syntax node, as `built` states it.
pub fn build_node(n: &SyntaxNode, key: Option<String>, bound: Range, depth: usize) -> (r: Node)
    requires
        range_ordered(bound),
    ensures
        built(r, *n, opt_chars(key), bound, depth as nat),
        range_within(r.range, bound),
        well_nested(r),
    decreases depth, 1nat,
{
    let range = clamp_range(order_range(n.range), bound);
    if depth == 0 {
        return Node::new(key, NodeValue::Null, range);
    }
    let kind = n.kind.as_str();
    let wrapper = str_eq(kind, "stream") || str_eq(kind, "document") || str_eq(kind, "flow_node");
    let mapping = str_eq(kind, "block_mapping") || str_eq(kind, "flow_mapping") || (str_eq(kind, "ERROR")
        && has_pair_child(n));
    let sequence = str_eq(kind, "block_sequence") || str_eq(kind, "flow_sequence");
    let scalar = str_eq(kind, "plain_scalar") || str_eq(kind, "single_quote_scalar") || str_eq(
        kind,
        "double_quote_scalar",
    ) || str_eq(kind, "block_scalar");
    let null = str_eq(kind, "null") || str_eq(kind, "null_scalar");
    if wrapper || !(mapping || sequence || scalar || null) {
        if n.children.len() > 0 {
            return build_node(&n.children[0], key, bound, depth - 1);
        }
        if wrapper || n.text.as_str().is_empty() {
            return Node::new(key, NodeValue::Null, range);
        }
        return Node::new(key, NodeValue::Scalar(n.text.clone()), range);
    }
    if mapping {
        let mut entries: Vec<Node> = Vec::new();
        let mut i: usize = 0;
        let ghost cs = n.children@;
        assert(cs.take(0) =~= Seq::<SyntaxNode>::empty());
        while i < n.children.len()
            invariant
                i <= cs.len(),
                cs == n.children@,
                range == own_range(*n, bound),
                range_ordered(range),
                range_within(range, bound),
                0 < depth,
                entries@.len() == pair_list(cs.take(i as int)).len(),
                forall|j: int|
                    0 <= j < entries@.len() ==> {
                        &&& opt_chars((#[trigger] entries@[j]).key) == Some(
                            first_field(pair_list(cs.take(i as int))[j].children@, "key"@, 0)->0.text@,
                        )
                        &&& entries@[j].range == entry_range(pair_list(cs.take(i as int))[j], range)
                        &&& value_built(
                            entries@[j].value,
                            first_field(pair_list(cs.take(i as int))[j].children@, "value"@, 0)->0,
                            entry_range(pair_list(cs.take(i as int))[j], range),
                            (depth - 1) as nat,
                        )
                        &&& range_within(entries@[j].range, range)
                        &&& well_nested(entries@[j])
                    },
            decreases cs.len() - i,
        {
            let c = &n.children[i];
            let ghost before = pair_list(cs.take(i as int));
            proof {
                let t = cs.take(i + 1);
                assert(t.drop_last() =~= cs.take(i as int));
                assert(t.last() == cs[i as int]);
            }
            let full = pair_kind(c) && find_field(&c.children, "key").is_some() && find_field(
                &c.children,
                "value",
            ).is_some();
            if full {
                let e = build_entry(c, range, depth - 1);
                entries.push(e);
                assert(pair_list(cs.take(i + 1)) == before.push(*c));
            } else {
                assert(pair_list(cs.take(i + 1)) == before);
            }
            i = i + 1;
        }
        assert(cs.take(i as int) =~= cs);
        let r = Node::new(key, NodeValue::Mapping(entries), range);
        proof { lemma_well_nested_parent(r); }
        return r;
    }
    if sequence {
        let mut items: Vec<Node> = Vec::new();
        let mut i: usize = 0;
        let ghost cs = n.children@;
        assert(cs.take(0) =~= Seq::<SyntaxNode>::empty());
        while i < n.children.len()
            invariant
                i <= cs.len(),
                cs == n.children@,
                range == own_range(*n, bound),
                range_ordered(range),
                range_within(range, bound),
                0 < depth,
                items@.len() == value_list(cs.take(i as int)).len(),
                forall|j: int|
                    0 <= j < items@.len() ==> {
                        &&& (#[trigger] items@[j]).key is None
                        &&& items@[j].range == range_built(value_list(cs.take(i as int))[j], range, (depth - 1) as nat)
                        &&& value_built(items@[j].value, value_list(cs.take(i as int))[j], range, (depth - 1) as nat)
                        &&& range_within(items@[j].range, range)
                        &&& well_nested(items@[j])
                    },
            decreases cs.len() - i,
        {
            let c = &n.children[i];
            let ghost before = value_list(cs.take(i as int));
            proof {
                let t = cs.take(i + 1);
                assert(t.drop_last() =~= cs.take(i as int));
                assert(t.last() == cs[i as int]);
            }
            if str_eq(c.kind.as_str(), "block_sequence_item") {
                if c.children.len() >= 2 {
                    let item = build_node(&c.children[1], None, range, depth - 1);
                    items.push(item);
                    assert(value_list(cs.take(i + 1)) == before.push(c.children@[1]));
                } else {
                    assert(value_list(cs.take(i + 1)) == before);
                }
            } else if str_eq(c.kind.as_str(), "flow_node") {
                let item = build_node(c, None, range, depth - 1);
                items.push(item);
                assert(value_list(cs.take(i + 1)) == before.push(*c));
            } else {
                assert(value_list(cs.take(i + 1)) == before);
            }
            i = i + 1;
        }
        assert(cs.take(i as int) =~= cs);
        let r = Node::new(key, NodeValue::Sequence(items), range);
        proof { lemma_well_nested_parent(r); }
        return r;
    }
    if scalar {
        return Node::new(key, NodeValue::Scalar(n.text.clone()), range);
    }
    Node::new(key, NodeValue::Null, range)
}

/// The tree for a syntax tree, as `built` states it, following it at most
/// `MAX_DEPTH` levels down.
pub fn build_ast(n: &SyntaxNode, key: &Option<String>, bound: Range) -> (r: Node)
    requires
        range_ordered(bound),
    ensures
        built(r, *n, opt_chars(*key), bound, MAX_DEPTH as nat),
        range_within(r.range, bound),
        well_nested(r),
{
    build_node(n, copy_opt(key), bound, MAX_DEPTH)
}

/// The largest range there is: every tree is shrunk into it.
pub open spec fn whole_spec() -> Range {
    Range {
        start: Position { line: 0, character: 0 },
        end: Position { line: u32::MAX, character: u32::MAX },
    }
}

pub fn whole_range() -> (r: Range)
    ensures
        r == whole_spec(),
        range_ordered(r),
{
    Range { start: Position { line: 0, character: 0 }, end: Position { line: u32::MAX, character: u32::MAX } }
}

/// `root` is the tree of a document whose syntax tree is `syn`.
pub open spec fn root_built(root: Node, syn: SyntaxNode) -> bool {
    built(root, syn, None, whole_spec(), MAX_DEPTH as nat)
}

/// Appends a diagnostic for each error node, each node the parser inserted
/// and each block sequence item without a value, at or under `n`,
/// following it at most `depth` levels down.
pub fn collect_errors(n: &SyntaxNode, depth: usize, out: &mut Vec<SyntaxDiagnostic>)
    ensures
        final(out)@.len() >= old(out)@.len(),
        n.is_error || n.is_missing ==> final(out)@.len() > old(out)@.len(),
    decreases depth,
{
    if n.is_missing {
        let mut message = "Missing ".to_owned();
        message.append(n.kind.as_str());
        out.push(SyntaxDiagnostic { range: order_range(n.range), message });
    } else if n.is_error {
        out.push(SyntaxDiagnostic { range: order_range(n.range), message: "Syntax error".to_owned() });
    } else if str_eq(n.kind.as_str(), "block_sequence_item") && n.children.len() < 2 {
        out.push(
            SyntaxDiagnostic {
                range: order_range(n.range),
                message: "Missing value after sequence item marker".to_owned(),
            },
        );
    }
    if depth == 0 {
        return;
    }
    let mut i: usize = 0;
    let ghost start = old(out)@.len();
    while i < n.children.len()
        invariant
            i <= n.children@.len(),
            out@.len() >= start,
            n.is_error || n.is_missing ==> out@.len() > start,
            start == old(out)@.len(),
            0 < depth,
        decreases n.children@.len() - i,
    {
        collect_errors(&n.children[i], depth - 1, out);
        i = i + 1;
    }
}

/// The document for a syntax tree: its tree, as `built` states it, and a
/// diagnostic for each syntax problem. A tree with an error that no node
/// marks gets one diagnostic over the whole root.
pub fn document_from_syntax(filename: &str, syn: &SyntaxNode) -> (r: YamlDocument)
    ensures
        r.filename@ == filename@,
        root_built(r.root, *syn),
        well_nested(r.root),
        opt_chars(r.api_version) == top_scalar(r.root, "apiVersion"@),
        opt_chars(r.kind) == top_scalar(r.root, "kind"@),
        syn.has_error || syn.is_error || syn.is_missing ==> r.diagnostics@.len() > 0,
{
    let root = build_ast(syn, &None, whole_range());
    let mut diagnostics: Vec<SyntaxDiagnostic> = Vec::new();
    collect_errors(syn, MAX_DEPTH, &mut diagnostics);
    if syn.has_error && diagnostics.len() == 0 {
        diagnostics.push(SyntaxDiagnostic { range: root.range, message: "Syntax error".to_owned() });
    }
    let mut doc = YamlDocument::new(filename.to_owned(), root);
    doc.diagnostics = diagnostics;
    doc
}

} // verus!

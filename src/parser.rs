//! Reading YAML text through tree-sitter's error-recovering YAML grammar
//! into a syntax tree of plain values, and from there into the
//! range-annotated tree.

use vstd::prelude::*;
use crate::ast::{opt_chars, top_scalar, well_nested, Node, NodeValue, SyntaxDiagnostic, YamlDocument};
use crate::document::{lemma_skip_lines_bounds, skip_lines};
use crate::position::{Position, Range};
use crate::syntax::{document_from_syntax, root_built, SyntaxNode, MAX_DEPTH};
use crate::text::chars_of;

verus! {

#[verifier::external_type_specification]
#[verifier::external_body]
pub struct ExTsParser(tree_sitter::Parser);

#[verifier::external_type_specification]
#[verifier::external_body]
pub struct ExTsTree(tree_sitter::Tree);

#[verifier::external_type_specification]
#[verifier::external_body]
pub struct ExTsCursor<'tree>(tree_sitter::TreeCursor<'tree>);

/// A syntax tree together with the text it was parsed from, so that node
/// text is only ever read from that text.
pub struct SourceTree {
    tree: tree_sitter::Tree,
    source: String,
}

/// Relies on `tree_sitter::Parser::new`: a parser with no language yet.
#[verifier::external_body]
fn ts_new_parser() -> tree_sitter::Parser {
    tree_sitter::Parser::new()
}

/// Relies on `tree_sitter::Parser::set_language` with the YAML grammar of
/// `tree_sitter_yaml`: whether the grammar was accepted.
#[verifier::external_body]
fn ts_set_yaml_language(p: &mut tree_sitter::Parser) -> bool {
    p.set_language(&tree_sitter_yaml::LANGUAGE.into()).is_ok()
}

/// Relies on `tree_sitter::Parser::parse`: the syntax tree of `text`, kept
/// with `text`, if the parser could produce one.
#[verifier::external_body]
fn ts_parse(p: &mut tree_sitter::Parser, text: &str) -> Option<SourceTree> {
    match p.parse(text, None) {
        Some(tree) => Some(SourceTree { tree, source: text.to_string() }),
        None => None,
    }
}

/// Relies on `tree_sitter::Tree::walk`: a cursor on the root node.
#[verifier::external_body]
fn ts_walk<'t>(t: &'t SourceTree) -> tree_sitter::TreeCursor<'t> {
    t.tree.walk()
}

/// Relies on `tree_sitter::Node::kind` of the cursor's node: the grammar's
/// name for it.
#[verifier::external_body]
fn ts_kind<'t>(c: &tree_sitter::TreeCursor<'t>) -> &'static str {
    c.node().kind()
}

/// Relies on `tree_sitter::TreeCursor::field_name`: the field under which
/// the cursor's node stands in its parent.
#[verifier::external_body]
fn ts_field_name<'t>(c: &tree_sitter::TreeCursor<'t>) -> Option<&'static str> {
    c.field_name()
}

/// Relies on `tree_sitter::TreeCursor::goto_first_child`: whether the cursor
/// moved to the node's first child.
#[verifier::external_body]
fn ts_first_child<'t>(c: &mut tree_sitter::TreeCursor<'t>) -> bool {
    c.goto_first_child()
}

/// Relies on `tree_sitter::TreeCursor::goto_next_sibling`: whether the
/// cursor moved to the next sibling.
#[verifier::external_body]
fn ts_next_sibling<'t>(c: &mut tree_sitter::TreeCursor<'t>) -> bool {
    c.goto_next_sibling()
}

/// Relies on `tree_sitter::TreeCursor::goto_parent`: whether the cursor
/// moved back to the parent.
#[verifier::external_body]
fn ts_parent<'t>(c: &mut tree_sitter::TreeCursor<'t>) -> bool {
    c.goto_parent()
}

/// Relies on `tree_sitter::Node::child_count` of the cursor's node.
#[verifier::external_body]
fn ts_child_count<'t>(c: &tree_sitter::TreeCursor<'t>) -> usize {
    c.node().child_count()
}

/// Relies on `tree_sitter::Node::start_position` of the cursor's node:
/// (row, byte column).
#[verifier::external_body]
fn ts_start<'t>(c: &tree_sitter::TreeCursor<'t>) -> (usize, usize) {
    let p = c.node().start_position();
    (p.row, p.column)
}

/// Relies on `tree_sitter::Node::end_position` of the cursor's node:
/// (row, byte column).
#[verifier::external_body]
fn ts_end<'t>(c: &tree_sitter::TreeCursor<'t>) -> (usize, usize) {
    let p = c.node().end_position();
    (p.row, p.column)
}

/// Relies on `tree_sitter::Node::utf8_text` of the cursor's node over the
/// text kept with the tree; text that is not valid UTF-8 gives an empty
/// string.
#[verifier::external_body]
fn ts_text<'t>(c: &tree_sitter::TreeCursor<'t>, t: &'t SourceTree) -> String {
    c.node().utf8_text(t.source.as_bytes()).unwrap_or("").to_string()
}

/// Relies on `tree_sitter::Node::has_error` of the cursor's node.
#[verifier::external_body]
fn ts_has_error<'t>(c: &tree_sitter::TreeCursor<'t>) -> bool {
    c.node().has_error()
}

/// Relies on `tree_sitter::Node::is_error` of the cursor's node.
#[verifier::external_body]
fn ts_is_error<'t>(c: &tree_sitter::TreeCursor<'t>) -> bool {
    c.node().is_error()
}

/// Relies on `tree_sitter::Node::is_missing` of the cursor's node.
#[verifier::external_body]
fn ts_is_missing<'t>(c: &tree_sitter::TreeCursor<'t>) -> bool {
    c.node().is_missing()
}

/// The number of bytes that UTF-8 takes for a character.
pub open spec fn utf8_len(c: char) -> int {
    if (c as u32) < 0x80 {
        1
    } else if (c as u32) < 0x800 {
        2
    } else if (c as u32) < 0x10000 {
        3
    } else {
        4
    }
}

/// How many characters from index `i` on, within one line, the first
/// `bytes` bytes of their UTF-8 form cover.
pub open spec fn column_chars(s: Seq<char>, i: int, bytes: int) -> int
    decreases s.len() - i,
{
    if i < 0 || i >= s.len() || bytes <= 0 || s[i] == '\n' {
        0
    } else {
        1 + column_chars(s, i + 1, bytes - utf8_len(s[i]))
    }
}

pub open spec fn clamp_u32(n: int) -> u32 {
    if n <= u32::MAX {
        n as u32
    } else {
        u32::MAX
    }
}

/// The position, in characters, of a (row, byte column) point of `s`.
pub open spec fn char_point(s: Seq<char>, p: (usize, usize)) -> Position {
    Position {
        line: clamp_u32(p.0 as int),
        character: clamp_u32(column_chars(s, skip_lines(s, p.0 as nat, 0), p.1 as int)),
    }
}

fn to_u32(x: usize) -> (r: u32)
    ensures
        r == clamp_u32(x as int),
{
    if x <= u32::MAX as usize {
        x as u32
    } else {
        u32::MAX
    }
}

/// The index where line `row` of `cs` starts.
fn line_start(cs: &Vec<char>, row: usize) -> (r: usize)
    ensures
        r == skip_lines(cs@, row as nat, 0),
{
    let n = cs.len();
    let mut i: usize = 0;
    let mut l: usize = row;
    while l > 0 && i < n
        invariant
            n == cs@.len(),
            i <= n,
            skip_lines(cs@, row as nat, 0) == skip_lines(cs@, l as nat, i as int),
        decreases n - i,
    {
        if cs[i] == '\n' {
            l = l - 1;
        }
        i = i + 1;
    }
    i
}

/// A (row, byte column) point as a position counted in characters.
pub fn point_to_position(cs: &Vec<char>, p: (usize, usize)) -> (r: Position)
    ensures
        r == char_point(cs@, p),
{
    let start = line_start(cs, p.0);
    proof { lemma_skip_lines_bounds(cs@, p.0 as nat, 0); }
    let n = cs.len();
    let mut i = start;
    let mut budget = p.1;
    let mut count: usize = 0;
    while i < n && budget > 0 && cs[i] != '\n'
        invariant
            n == cs@.len(),
            start <= i <= n,
            count <= i,
            column_chars(cs@, start as int, p.1 as int) == count + column_chars(cs@, i as int, budget as int),
        decreases n - i,
    {
        let c = cs[i];
        let width: usize = if (c as u32) < 0x80 {
            1
        } else if (c as u32) < 0x800 {
            2
        } else if (c as u32) < 0x10000 {
            3
        } else {
            4
        };
        assert(width == utf8_len(c));
        assert(column_chars(cs@, i as int, budget as int) == 1 + column_chars(cs@, i + 1, budget - width));
        if budget <= width {
            assert(column_chars(cs@, i + 1, budget - width) == 0);
            assert(column_chars(cs@, i + 1, 0) == 0);
            budget = 0;
        } else {
            budget = budget - width;
        }
        count = count + 1;
        i = i + 1;
    }
    Position { line: to_u32(p.0), character: to_u32(count) }
}

/// Reads the syntax node under the cursor and, `depth` levels down, its
/// children. The cursor ends where it started.
fn read_syntax<'t>(c: &mut tree_sitter::TreeCursor<'t>, t: &'t SourceTree, cs: &Vec<char>, depth: usize) -> (r: SyntaxNode)
    decreases depth,
{
    let kind = ts_kind(c).to_owned();
    let field = match ts_field_name(c) {
        Some(f) => Some(f.to_owned()),
        None => None,
    };
    let range = Range { start: point_to_position(cs, ts_start(c)), end: point_to_position(cs, ts_end(c)) };
    let text = ts_text(c, t);
    let is_error = ts_is_error(c);
    let is_missing = ts_is_missing(c);
    let has_error = ts_has_error(c);
    let mut children: Vec<SyntaxNode> = Vec::new();
    if depth > 0 {
        let count = ts_child_count(c);
        if count > 0 && ts_first_child(c) {
            let mut i: usize = 0;
            while i < count
                invariant
                    depth > 0,
                decreases count - i,
            {
                children.push(read_syntax(c, t, cs, depth - 1));
                i = i + 1;
                if i < count && !ts_next_sibling(c) {
                    break;
                }
            }
            ts_parent(c);
        }
    }
    SyntaxNode { kind, field, range, text, is_error, is_missing, has_error, children }
}

/// The document that stands when no syntax tree could be had: a null root
/// and one diagnostic.
fn unreadable_document(filename: &str, message: &str) -> (r: YamlDocument)
    ensures
        r.filename@ == filename@,
        r.root.value is Null,
        r.root.key is None,
        well_nested(r.root),
        opt_chars(r.api_version) == top_scalar(r.root, "apiVersion"@),
        opt_chars(r.kind) == top_scalar(r.root, "kind"@),
        r.diagnostics@.len() == 1,
{
    let at = Position { line: 0, character: 0 };
    let root = Node::new(None, NodeValue::Null, Range { start: at, end: at });
    let mut doc = YamlDocument::new(filename.to_owned(), root);
    doc.diagnostics.push(SyntaxDiagnostic { range: Range { start: at, end: at }, message: message.to_owned() });
    doc
}

/// Parses YAML text; never fails. The tree is the one `built` states for
/// the syntax tree that the grammar gives, with columns counted in
/// characters; a syntax error there gives at least one diagnostic. Where no
/// syntax tree can be had, the root is null and a diagnostic says so.
pub fn parse_yaml(filename: &str, content: &str) -> (r: Result<YamlDocument, String>)
    ensures
        match r {
            Ok(d) => {
                &&& d.filename@ == filename@
                &&& well_nested(d.root)
                &&& opt_chars(d.api_version) == top_scalar(d.root, "apiVersion"@)
                &&& opt_chars(d.kind) == top_scalar(d.root, "kind"@)
                &&& (exists|syn: SyntaxNode|
                    #[trigger] root_built(d.root, syn) && (syn.has_error ==> d.diagnostics@.len() > 0))
                    || (d.root.value is Null && d.diagnostics@.len() > 0)
            },
            Err(_) => false,
        },
{
    let mut parser = ts_new_parser();
    if !ts_set_yaml_language(&mut parser) {
        return Ok(unreadable_document(filename, "Failed to set language"));
    }
    match ts_parse(&mut parser, content) {
        Some(tree) => {
            let cs = chars_of(content);
            let mut cursor = ts_walk(&tree);
            let syn = read_syntax(&mut cursor, &tree, &cs, MAX_DEPTH);
            let doc = document_from_syntax(filename, &syn);
            assert(root_built(doc.root, syn));
            Ok(doc)
        },
        None => Ok(unreadable_document(filename, "Failed to parse YAML")),
    }
}

} // verus!

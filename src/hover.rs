//! Hover documentation for the field or resource kind under the cursor.

use vstd::prelude::*;
use crate::ast::{node_at, opt_chars, spec_scalar, Node, NodeValue, YamlDocument};
use crate::docs::{documentation, get_documentation};
use crate::position::{Position, Range};
use crate::text::str_eq;

verus! {

/// The documentation shown for a node: that of its key; else that of its
/// scalar value; else, under the key `kind`, that of the document's kind.
pub open spec fn hover_text(n: Node, doc_kind: Option<Seq<char>>) -> Option<Seq<char>> {
    let key = opt_chars(n.key);
    if key is Some && documentation(key->0) is Some {
        documentation(key->0)
    } else if spec_scalar(n) is Some && documentation(spec_scalar(n)->0) is Some {
        documentation(spec_scalar(n)->0)
    } else if key == Some("kind"@) && doc_kind is Some && documentation(doc_kind->0) is Some {
        documentation(doc_kind->0)
    } else {
        None
    }
}

/// Markdown to show, and the range it is about.
#[derive(Debug, Clone)]
pub struct HoverInfo {
    pub contents: String,
    pub range: Range,
}

fn doc_text(key: &str) -> (r: Option<String>)
    ensures
        opt_chars(r) == documentation(key@),
{
    match get_documentation(key) {
        Some(t) => Some(t.to_owned()),
        None => None,
    }
}

/// Provides hover documentation.
#[derive(Debug, Clone, Default)]
pub struct HoverProvider;

impl HoverProvider {
    pub fn new() -> Self {
        HoverProvider
    }

    /// The documentation shown for `node` in a document of kind `doc_kind`.
    pub fn get_hover_documentation(&self, node: &Node, doc_kind: &Option<String>) -> (r: Option<String>)
        ensures
            opt_chars(r) == hover_text(*node, opt_chars(*doc_kind)),
    {
        if let Some(key) = &node.key {
            if let Some(d) = doc_text(key.as_str()) {
                return Some(d);
            }
        }
        if let NodeValue::Scalar(value) = &node.value {
            if let Some(d) = doc_text(value.as_str()) {
                return Some(d);
            }
        }
        if let Some(key) = &node.key {
            if str_eq(key.as_str(), "kind") {
                if let Some(kind) = doc_kind {
                    return doc_text(kind.as_str());
                }
            }
        }
        None
    }

    /// The documentation of the most specific node at `position`, with that
    /// node's range.
    pub fn provide_hover(&self, doc: &YamlDocument, position: Position) -> (r: Option<HoverInfo>)
        ensures
            match node_at(doc.root, position, -1) {
                Some(n) => match r {
                    Some(h) => hover_text(n, opt_chars(doc.kind)) == Some(h.contents@) && h.range == n.range,
                    None => hover_text(n, opt_chars(doc.kind)) is None,
                },
                None => r is None,
            },
    {
        let node = match doc.find_node_at_position(position) {
            Some(n) => n,
            None => return None,
        };
        match self.get_hover_documentation(node, &doc.kind) {
            Some(contents) => Some(HoverInfo { contents, range: node.range }),
            None => None,
        }
    }
}

} // verus!

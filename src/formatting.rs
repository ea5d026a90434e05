//! Whole-document formatting through serde_yaml's canonical rendering.

use vstd::prelude::*;
use crate::lines::{line_bounds, text_lines};
use crate::position::{Position, Range};
use crate::text::{chars_of, str_eq};

verus! {

#[verifier::external_type_specification]
#[verifier::external_body]
pub struct ExYamlValue(serde_yaml::Value);

/// A character of the Unicode property White_Space.
pub open spec fn is_white_space(c: char) -> bool {
    let u = c as u32;
    (0x9 <= u && u <= 0xD) || u == 0x20 || u == 0x85 || u == 0xA0 || u == 0x1680 || (0x2000 <= u && u <= 0x200A)
        || u == 0x2028 || u == 0x2029 || u == 0x202F || u == 0x205F || u == 0x3000
}

/// The first index at or after `i` that does not hold white space.
pub open spec fn first_non_space(s: Seq<char>, i: int) -> int
    decreases s.len() - i,
{
    if i >= s.len() {
        s.len() as int
    } else if is_white_space(s[i]) {
        first_non_space(s, i + 1)
    } else {
        i
    }
}

/// The end of `s.take(j)` without its trailing white space.
pub open spec fn end_non_space(s: Seq<char>, j: int) -> int
    decreases j,
{
    if j <= 0 {
        0
    } else if is_white_space(s[j - 1]) {
        end_non_space(s, j - 1)
    } else {
        j
    }
}

/// The text without leading and trailing white space.
pub open spec fn trim_of(s: Seq<char>) -> Seq<char> {
    let a = first_non_space(s, 0);
    let b = end_non_space(s, s.len() as int);
    if a < b {
        s.subrange(a, b)
    } else {
        Seq::empty()
    }
}

/// Relies on `str::trim`: the text without leading and trailing white
/// space, white space being the Unicode property White_Space.
#[verifier::external_body]
fn trim_text(s: &str) -> (r: &str)
    ensures
        r@ == trim_of(s@),
{
    s.trim()
}

/// Relies on `serde_yaml::from_str` into a `serde_yaml::Value`: `None` for
/// text it cannot read.
#[verifier::external_body]
fn yaml_read(content: &str) -> Option<serde_yaml::Value> {
    serde_yaml::from_str::<serde_yaml::Value>(content).ok()
}

/// Relies on `serde_yaml::to_string`: the value's canonical YAML text.
#[verifier::external_body]
fn yaml_write(value: &serde_yaml::Value) -> Option<String> {
    serde_yaml::to_string(value).ok()
}

/// A replacement of a range by new text.
#[derive(Debug, Clone)]
pub struct TextEdit {
    pub range: Range,
    pub new_text: String,
}

pub open spec fn clamp_u32(n: int) -> u32 {
    if n <= u32::MAX {
        n as u32
    } else {
        u32::MAX
    }
}

/// The range from the start of a text to the end of its last line.
pub open spec fn whole_text_range(content: Seq<char>) -> Range {
    let ls = text_lines(content);
    let last: int = if ls.len() == 0 { 0 } else { ls.len() - 1 };
    let width: int = if ls.len() == 0 { 0 } else { ls.last().len() as int };
    Range { start: Position { line: 0, character: 0 }, end: Position { line: clamp_u32(last), character: clamp_u32(width) } }
}

/// The edits that formatting gives, for the canonical text `formatted` (or
/// none, where the text could not be read): none where the two agree up to
/// surrounding white space; else one edit replacing the whole text.
pub open spec fn format_edits(content: Seq<char>, formatted: Option<Seq<char>>) -> Option<Seq<(Range, Seq<char>)>> {
    match formatted {
        None => None,
        Some(f) => if trim_of(content) == trim_of(f) {
            Some(Seq::empty())
        } else {
            Some(seq![(whole_text_range(content), f)])
        },
    }
}

pub open spec fn edit_views(v: Seq<TextEdit>) -> Seq<(Range, Seq<char>)> {
    v.map_values(|e: TextEdit| (e.range, e.new_text@))
}

fn to_u32(n: usize) -> (r: u32)
    ensures
        r == clamp_u32(n as int),
{
    if n <= u32::MAX as usize {
        n as u32
    } else {
        u32::MAX
    }
}

/// Formats Tekton documents.
#[derive(Debug, Clone, Default)]
pub struct FormattingProvider {
    /// Spaces per indentation level.
    indent_size: usize,
}

impl FormattingProvider {
    pub fn new() -> Self {
        FormattingProvider { indent_size: 2 }
    }

    /// The edits that formatting gives for a text, given its canonical
    /// rendering (`None` where the text is not valid YAML).
    pub fn edits_for(&self, content: &str, formatted: Option<String>) -> (r: Option<Vec<TextEdit>>)
        ensures
            match r {
                Some(v) => format_edits(content@, opt_text(formatted)) == Some(edit_views(v@)),
                None => format_edits(content@, opt_text(formatted)) is None,
            },
    {
        let formatted = match formatted {
            Some(f) => f,
            None => return None,
        };
        if str_eq(trim_text(content), trim_text(formatted.as_str())) {
            let v: Vec<TextEdit> = Vec::new();
            assert(edit_views(v@) =~= Seq::<(Range, Seq<char>)>::empty());
            return Some(v);
        }
        let cs = chars_of(content);
        let bounds = line_bounds(&cs);
        let n = bounds.len();
        let last = if n == 0 { 0 } else { n - 1 };
        let width = if n == 0 {
            0
        } else {
            let (a, b) = bounds[n - 1];
            assert(bounds@[n - 1] == (a, b));
            assert(cs@.subrange(a as int, b as int).len() == b - a);
            b - a
        };
        let range = Range {
            start: Position { line: 0, character: 0 },
            end: Position { line: to_u32(last), character: to_u32(width) },
        };
        let mut v: Vec<TextEdit> = Vec::new();
        v.push(TextEdit { range, new_text: formatted });
        assert(edit_views(v@) =~= seq![(whole_text_range(content@), v@[0].new_text@)]);
        Some(v)
    }

    /// Formats a text: `None` where it is not valid YAML, no edits where it
    /// is already in canonical form, else one edit replacing it whole.
    pub fn format(&self, content: &str) -> (r: Option<Vec<TextEdit>>)
        ensures
            exists|f: Option<Seq<char>>|
                match r {
                    Some(v) => format_edits(content@, f) == Some(edit_views(v@)),
                    None => format_edits(content@, f) is None,
                },
    {
        let formatted = match yaml_read(content) {
            Some(value) => yaml_write(&value),
            None => None,
        };
        let ghost f = opt_text(formatted);
        let r = self.edits_for(content, formatted);
        assert(match r {
            Some(v) => format_edits(content@, f) == Some(edit_views(v@)),
            None => format_edits(content@, f) is None,
        });
        r
    }
}

pub open spec fn opt_text(o: Option<String>) -> Option<Seq<char>> {
    match o {
        Some(s) => Some(s@),
        None => None,
    }
}

} // verus!

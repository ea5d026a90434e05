//! Quick fixes offered for validation diagnostics.

use vstd::prelude::*;
use crate::ast::opt_chars;
use crate::position::{Position, Range};
use crate::text::{chars_of, str_eq, string_of};

verus! {

/// The first index at or after `i` where `p` occurs in `s`.
pub open spec fn find_from(s: Seq<char>, p: Seq<char>, i: int) -> Option<int>
    decreases s.len() + 1 - i,
{
    if i < 0 || i + p.len() > s.len() {
        None
    } else if s.subrange(i, i + p.len()) == p {
        Some(i)
    } else {
        find_from(s, p, i + 1)
    }
}

/// The text between the first two quotes (`'`) that follow the first
/// occurrence of `prefix` in `message`.
pub open spec fn field_name_in(message: Seq<char>, prefix: Seq<char>) -> Option<Seq<char>> {
    match find_from(message, prefix, 0) {
        Some(i) => match find_from(message, seq!['\''], i + prefix.len()) {
            Some(q) => match find_from(message, seq!['\''], q + 1) {
                Some(e) => Some(message.subrange(q + 1, e)),
                None => None,
            },
            None => None,
        },
        None => None,
    }
}

/// The text inserted to add a missing field.
pub open spec fn field_template(name: Seq<char>) -> Seq<char> {
    if name == "metadata"@ {
        "metadata:\n  name: \n"@
    } else if name == "spec"@ {
        "spec:\n  steps:\n    - name: step-1\n      image: alpine\n"@
    } else if name == "name"@ {
        "  name: \n"@
    } else if name == "steps"@ {
        "  steps:\n    - name: step-1\n      image: alpine\n"@
    } else if name == "tasks"@ {
        "  tasks:\n    - name: task-1\n      taskRef:\n        name: \n"@
    } else if name == "image"@ {
        "      image: alpine\n"@
    } else {
        "  "@ + name + ": \n"@
    }
}

/// A text edit that fixes a diagnostic, with the title to show for it.
#[derive(Debug, Clone)]
pub struct QuickFix {
    pub title: String,
    pub range: Range,
    pub new_text: String,
}

/// The fix for a diagnostic with this message and range: a missing
/// required field is added on the line after the range; an unknown field's
/// line is removed; other messages get no fix.
pub open spec fn quick_fix_for(message: Seq<char>, range: Range) -> Option<(Seq<char>, Range, Seq<char>)> {
    if find_from(message, "Missing required field"@, 0) is Some {
        match field_name_in(message, "Missing required field"@) {
            Some(name) => {
                let at = Position { line: (range.end.line + 1) as u32, character: 0 };
                Some(("Add missing field '"@ + name + "'"@, Range { start: at, end: at }, field_template(name)))
            },
            None => None,
        }
    } else if find_from(message, "Unknown field"@, 0) is Some {
        match field_name_in(message, "Unknown field"@) {
            Some(name) => Some(
                (
                    "Remove unknown field '"@ + name + "'"@,
                    Range {
                        start: Position { line: range.start.line, character: 0 },
                        end: Position { line: (range.start.line + 1) as u32, character: 0 },
                    },
                    Seq::empty(),
                ),
            ),
            None => None,
        }
    } else {
        None
    }
}

/// The fixes for a list of diagnostics, each (message, range), paired with
/// the index of the diagnostic it fixes, in order.
pub open spec fn fixes_for(diags: Seq<(Seq<char>, Range)>) -> Seq<(int, (Seq<char>, Range, Seq<char>))>
    decreases diags.len(),
{
    if diags.len() == 0 {
        Seq::empty()
    } else {
        let rest = fixes_for(diags.drop_last());
        match quick_fix_for(diags.last().0, diags.last().1) {
            Some(f) => rest.push((diags.len() - 1, f)),
            None => rest,
        }
    }
}

pub open spec fn diag_views(d: Seq<(String, Range)>) -> Seq<(Seq<char>, Range)> {
    d.map_values(|x: (String, Range)| (x.0@, x.1))
}

pub open spec fn fix_views(v: Seq<(usize, QuickFix)>) -> Seq<(int, (Seq<char>, Range, Seq<char>))> {
    v.map_values(|x: (usize, QuickFix)| (x.0 as int, (x.1.title@, x.1.range, x.1.new_text@)))
}

/// Whether `p` occurs in `s` at index `i`.
fn matches_at(s: &Vec<char>, p: &Vec<char>, i: usize) -> (r: bool)
    requires
        i + p@.len() <= s@.len(),
    ensures
        r == (s@.subrange(i as int, i + p@.len()) == p@),
{
    let n = s.len();
    let mut k: usize = 0;
    while k < p.len()
        invariant
            n == s@.len(),
            i + p@.len() <= s@.len(),
            k <= p@.len(),
            forall|j: int| 0 <= j < k ==> s@[i + j] == p@[j],
        decreases p@.len() - k,
    {
        assert(i + k < s@.len());
        if s[i + k] != p[k] {
            assert(s@.subrange(i as int, i + p@.len())[k as int] != p@[k as int]);
            return false;
        }
        k = k + 1;
    }
    assert(s@.subrange(i as int, i + p@.len()) =~= p@);
    true
}

/// The first index at or after `start` where `p` occurs in `s`.
fn find_in(s: &Vec<char>, p: &Vec<char>, start: usize) -> (r: Option<usize>)
    ensures
        match r {
            Some(i) => find_from(s@, p@, start as int) == Some(i as int) && start <= i && i + p@.len()
                <= s@.len(),
            None => find_from(s@, p@, start as int) is None,
        },
{
    let mut i = start;
    loop
        invariant
            start <= i,
            find_from(s@, p@, start as int) == find_from(s@, p@, i as int),
        decreases s@.len() + 1 - i,
    {
        if i > s.len() || p.len() > s.len() - i {
            return None;
        }
        if matches_at(s, p, i) {
            return Some(i);
        }
        if i == s.len() {
            assert(find_from(s@, p@, i + 1) is None);
            return None;
        }
        i = i + 1;
    }
}

/// Offers quick fixes for validation diagnostics.
#[derive(Debug, Clone, Default)]
pub struct CodeActionsProvider;

impl CodeActionsProvider {
    pub fn new() -> Self {
        CodeActionsProvider
    }

    /// The field name quoted after `prefix` in a diagnostic message, as in
    /// `Missing required field 'metadata'`.
    pub fn extract_field_name(&self, message: &str, prefix: &str) -> (r: Option<String>)
        ensures
            opt_chars(r) == field_name_in(message@, prefix@),
    {
        let m = chars_of(message);
        let p = chars_of(prefix);
        let quote = vec!['\''];
        assert(quote@ =~= seq!['\'']);
        let mlen = m.len();
        let i = match find_in(&m, &p, 0) {
            Some(i) => i,
            None => return None,
        };
        let q = match find_in(&m, &quote, i + p.len()) {
            Some(q) => q,
            None => return None,
        };
        let e = match find_in(&m, &quote, q + 1) {
            Some(e) => e,
            None => return None,
        };
        let mut name: Vec<char> = Vec::new();
        let mut k = q + 1;
        while k < e
            invariant
                q + 1 <= k <= e <= m@.len(),
                name@ == m@.subrange(q + 1, k as int),
            decreases e - k,
        {
            name.push(m[k]);
            assert(m@.subrange(q + 1, k + 1) =~= m@.subrange(q + 1, k as int).push(m@[k as int]));
            k = k + 1;
        }
        Some(string_of(&name))
    }

    /// The text inserted to add a missing field.
    pub fn get_field_template(&self, field_name: &str) -> (r: String)
        ensures
            r@ == field_template(field_name@),
    {
        if str_eq(field_name, "metadata") {
            return "metadata:\n  name: \n".to_owned();
        }
        if str_eq(field_name, "spec") {
            return "spec:\n  steps:\n    - name: step-1\n      image: alpine\n".to_owned();
        }
        if str_eq(field_name, "name") {
            return "  name: \n".to_owned();
        }
        if str_eq(field_name, "steps") {
            return "  steps:\n    - name: step-1\n      image: alpine\n".to_owned();
        }
        if str_eq(field_name, "tasks") {
            return "  tasks:\n    - name: task-1\n      taskRef:\n        name: \n".to_owned();
        }
        if str_eq(field_name, "image") {
            return "      image: alpine\n".to_owned();
        }
        let mut t = "  ".to_owned();
        t.append(field_name);
        t.append(": \n");
        t
    }

    /// The fixes for diagnostics given as (message, range), each with the
    /// index of the diagnostic it fixes.
    pub fn provide_actions(&self, diagnostics: &Vec<(String, Range)>) -> (r: Vec<(usize, QuickFix)>)
        requires
            forall|i: int|
                0 <= i < diagnostics@.len() ==> (#[trigger] diagnostics@[i]).1.start.line < u32::MAX
                    && diagnostics@[i].1.end.line < u32::MAX,
        ensures
            fix_views(r@) == fixes_for(diag_views(diagnostics@)),
    {
        let ghost d = diag_views(diagnostics@);
        let mut out: Vec<(usize, QuickFix)> = Vec::new();
        let mut i: usize = 0;
        assert(d.take(0) =~= Seq::<(Seq<char>, Range)>::empty());
        assert(fix_views(out@) =~= fixes_for(d.take(0)));
        while i < diagnostics.len()
            invariant
                i <= diagnostics@.len(),
                d == diag_views(diagnostics@),
                forall|j: int|
                    0 <= j < diagnostics@.len() ==> (#[trigger] diagnostics@[j]).1.start.line < u32::MAX
                        && diagnostics@[j].1.end.line < u32::MAX,
                fix_views(out@) == fixes_for(d.take(i as int)),
            decreases diagnostics@.len() - i,
        {
            let (message, range) = &diagnostics[i];
            proof {
                let t = d.take(i + 1);
                assert(t.drop_last() =~= d.take(i as int));
                assert(t.last() == (message@, *range));
            }
            if let Some(fix) = self.action_for_diagnostic(message.as_str(), *range) {
                let ghost prev = out@;
                out.push((i, fix));
                assert(fix_views(out@) =~= fix_views(prev).push((i as int, (fix.title@, fix.range, fix.new_text@))));
            }
            i = i + 1;
        }
        assert(d.take(i as int) =~= d);
        out
    }

    /// The quick fix for a diagnostic with this message and range, if any.
    pub fn action_for_diagnostic(&self, message: &str, range: Range) -> (r: Option<QuickFix>)
        requires
            range.start.line < u32::MAX,
            range.end.line < u32::MAX,
        ensures
            match r {
                Some(f) => quick_fix_for(message@, range) == Some((f.title@, f.range, f.new_text@)),
                None => quick_fix_for(message@, range) is None,
            },
    {
        let m = chars_of(message);
        let missing = chars_of("Missing required field");
        let unknown = chars_of("Unknown field");
        if find_in(&m, &missing, 0).is_some() {
            let name = match self.extract_field_name(message, "Missing required field") {
                Some(n) => n,
                None => return None,
            };
            let mut title = "Add missing field '".to_owned();
            title.append(name.as_str());
            title.append("'");
            let at = Position { line: range.end.line + 1, character: 0 };
            Some(QuickFix { title, range: Range { start: at, end: at }, new_text: self.get_field_template(name.as_str()) })
        } else if find_in(&m, &unknown, 0).is_some() {
            let name = match self.extract_field_name(message, "Unknown field") {
                Some(n) => n,
                None => return None,
            };
            let mut title = "Remove unknown field '".to_owned();
            title.append(name.as_str());
            title.append("'");
            let line = range.start.line;
            Some(
                QuickFix {
                    title,
                    range: Range {
                        start: Position { line, character: 0 },
                        end: Position { line: line + 1, character: 0 },
                    },
                    new_text: String::new(),
                },
            )
        } else {
            None
        }
    }
}

} // verus!

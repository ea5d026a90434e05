//! The store of open documents and the edits applied to them.

use vstd::prelude::*;
use crate::position::{Position, Range};
use crate::text::{chars_of, str_eq, string_of};

verus! {

/// One change of a document: a range with the text that replaces it, or,
/// with no range, the whole new text.
#[derive(Debug, Clone)]
pub struct ContentChange {
    pub range: Option<Range>,
    pub text: String,
}

/// An open document.
#[derive(Debug, Clone)]
pub struct Document {
    pub uri: String,
    pub language_id: String,
    pub version: i32,
    pub content: String,
}

/// The index just past the `l`-th newline at or after `i`, or the end of
/// the text where fewer newlines follow.
pub open spec fn skip_lines(s: Seq<char>, l: nat, i: int) -> int
    decreases s.len() - i,
{
    if l == 0 {
        i
    } else if i >= s.len() {
        s.len() as int
    } else if s[i] == '\n' {
        skip_lines(s, (l - 1) as nat, i + 1)
    } else {
        skip_lines(s, l, i + 1)
    }
}

/// The index of the first newline at or after `i`, or the end of the text.
pub open spec fn line_break_from(s: Seq<char>, i: int) -> int
    decreases s.len() - i,
{
    if i >= s.len() {
        s.len() as int
    } else if s[i] == '\n' {
        i
    } else {
        line_break_from(s, i + 1)
    }
}

/// Where the characters of the line starting at `i` end: before its line
/// break, which is `\n` or `\r\n`.
pub open spec fn line_content_end(s: Seq<char>, i: int) -> int {
    let j = line_break_from(s, i);
    if i < j && j < s.len() && s[j - 1] == '\r' {
        j - 1
    } else {
        j
    }
}

/// The character offset of a position. A column past the end of its line
/// is taken as the line's end, and a line past the last one as the end of
/// the text.
pub open spec fn offset_of(s: Seq<char>, p: Position) -> int {
    let start = skip_lines(s, p.line as nat, 0);
    let end = line_content_end(s, start);
    if start + p.character <= end {
        start + p.character
    } else {
        end
    }
}

/// The content with the characters between the offsets of the range's ends
/// replaced by `text`; the text outside the range is kept as it was. An end
/// before the start is taken as the start.
pub open spec fn splice(content: Seq<char>, range: Range, text: Seq<char>) -> Seq<char> {
    let a = offset_of(content, range.start);
    let b = offset_of(content, range.end);
    let b = if b < a { a } else { b };
    content.take(a) + text + content.skip(b)
}

pub proof fn lemma_skip_lines_bounds(s: Seq<char>, l: nat, i: int)
    requires
        0 <= i <= s.len(),
    ensures
        i <= skip_lines(s, l, i) <= s.len(),
    decreases s.len() - i,
{
    if l != 0 && i < s.len() {
        if s[i] == '\n' {
            lemma_skip_lines_bounds(s, (l - 1) as nat, i + 1);
        } else {
            lemma_skip_lines_bounds(s, l, i + 1);
        }
    }
}

proof fn lemma_line_break_bounds(s: Seq<char>, i: int)
    requires
        0 <= i <= s.len(),
    ensures
        i <= line_break_from(s, i) <= s.len(),
    decreases s.len() - i,
{
    if i < s.len() && s[i] != '\n' {
        lemma_line_break_bounds(s, i + 1);
    }
}

proof fn lemma_offset_bounds(s: Seq<char>, p: Position)
    ensures
        0 <= offset_of(s, p) <= s.len(),
{
    lemma_skip_lines_bounds(s, p.line as nat, 0);
    lemma_line_break_bounds(s, skip_lines(s, p.line as nat, 0));
}

/// A range edit keeps the text before the start offset and after the end
/// offset exactly as it was, with the new text between them.
pub proof fn lemma_edit_keeps_outside(content: Seq<char>, range: Range, text: Seq<char>)
    ensures
        ({
            let a = offset_of(content, range.start);
            let b = if offset_of(content, range.end) < a { a } else { offset_of(content, range.end) };
            let r = splice(content, range, text);
            &&& 0 <= a <= b <= content.len()
            &&& r.take(a) == content.take(a)
            &&& r.subrange(a, a + text.len()) == text
            &&& r.skip(a + text.len()) == content.skip(b)
        }),
{
    lemma_offset_bounds(content, range.start);
    lemma_offset_bounds(content, range.end);
    let a = offset_of(content, range.start);
    let b = if offset_of(content, range.end) < a { a } else { offset_of(content, range.end) };
    let r = splice(content, range, text);
    assert(r.take(a) =~= content.take(a));
    assert(r.subrange(a, a + text.len()) =~= text);
    assert(r.skip(a + text.len()) =~= content.skip(b));
}

/// The offset of a position, as `offset_of` states it.
fn offset_in(cs: &Vec<char>, p: Position) -> (r: usize)
    ensures
        r == offset_of(cs@, p),
        r <= cs@.len(),
{
    let n = cs.len();
    let mut i: usize = 0;
    let mut l: u32 = p.line;
    proof { lemma_skip_lines_bounds(cs@, p.line as nat, 0); }
    while l > 0 && i < n
        invariant
            n == cs@.len(),
            i <= n,
            skip_lines(cs@, p.line as nat, 0) == skip_lines(cs@, l as nat, i as int),
        decreases n - i,
    {
        if cs[i] == '\n' {
            l = l - 1;
        }
        i = i + 1;
    }
    let start = i;
    proof { lemma_line_break_bounds(cs@, start as int); }
    let mut j = start;
    while j < n && cs[j] != '\n'
        invariant
            n == cs@.len(),
            start <= j <= n,
            line_break_from(cs@, start as int) == line_break_from(cs@, j as int),
        decreases n - j,
    {
        j = j + 1;
    }
    let end = if start < j && j < n && cs[j - 1] == '\r' { j - 1 } else { j };
    let col = p.character as usize;
    if col <= end - start {
        start + col
    } else {
        end
    }
}

/// The content after one change.
pub open spec fn apply_change(content: Seq<char>, change: ContentChange) -> Seq<char> {
    match change.range {
        None => change.text@,
        Some(range) => splice(content, range, change.text@),
    }
}

/// The content after a batch of changes, each applied to the result of the
/// ones before it.
pub open spec fn apply_all(content: Seq<char>, changes: Seq<ContentChange>) -> Seq<char>
    decreases changes.len(),
{
    if changes.len() == 0 {
        content
    } else {
        apply_change(apply_all(content, changes.drop_last()), changes.last())
    }
}

/// A batch of changes leads to the same text as one full replacement by the
/// text it yields; and a full replacement at the end of a batch supersedes
/// every change before it.
pub proof fn lemma_changes_match_full_replace(content: Seq<char>, changes: Seq<ContentChange>, full: ContentChange)
    requires
        full.range is None,
    ensures
        full.text@ == apply_all(content, changes) ==> apply_all(content, seq![full]) == apply_all(content, changes),
        apply_all(content, changes.push(full)) == full.text@,
{
    assert(seq![full].drop_last() =~= Seq::<ContentChange>::empty());
    assert(changes.push(full).drop_last() =~= changes);
}

/// Appends `cs[from..to]` to `out`.
fn push_span(out: &mut Vec<char>, cs: &Vec<char>, from: usize, to: usize)
    requires
        from <= to <= cs@.len(),
    ensures
        final(out)@ == old(out)@ + cs@.subrange(from as int, to as int),
{
    let mut i = from;
    while i < to
        invariant
            from <= i <= to <= cs@.len(),
            out@ == old(out)@ + cs@.subrange(from as int, i as int),
        decreases to - i,
    {
        out.push(cs[i]);
        assert(cs@.subrange(from as int, i + 1) =~= cs@.subrange(from as int, i as int).push(cs@[i as int]));
        i = i + 1;
    }
}

/// The text after replacing `range` with `text`, as `splice` states it.
pub fn splice_text(content: &str, range: Range, text: &str) -> (r: String)
    ensures
        r@ == splice(content@, range, text@),
{
    let cs = chars_of(content);
    let a = offset_in(&cs, range.start);
    let b0 = offset_in(&cs, range.end);
    let b = if b0 < a { a } else { b0 };
    let mut out: Vec<char> = Vec::new();
    push_span(&mut out, &cs, 0, a);
    let tcs = chars_of(text);
    push_span(&mut out, &tcs, 0, tcs.len());
    push_span(&mut out, &cs, b, cs.len());
    assert(out@ =~= splice(content@, range, text@));
    string_of(&out)
}

impl Document {
    pub fn new(uri: String, language_id: String, version: i32, content: String) -> (r: Self)
        ensures
            r.uri == uri,
            r.language_id == language_id,
            r.version == version,
            r.content == content,
    {
        Document { uri, language_id, version, content }
    }

    /// Applies the changes in order, each to the text the ones before it
    /// left. A change without a range replaces the whole text.
    pub fn apply_changes(&mut self, changes: Vec<ContentChange>)
        ensures
            final(self).content@ == apply_all(old(self).content@, changes@),
            final(self).uri == old(self).uri,
            final(self).language_id == old(self).language_id,
            final(self).version == old(self).version,
    {
        let mut i: usize = 0;
        assert(changes@.take(0) =~= Seq::<ContentChange>::empty());
        while i < changes.len()
            invariant
                i <= changes@.len(),
                self.content@ == apply_all(old(self).content@, changes@.take(i as int)),
                self.uri == old(self).uri,
                self.language_id == old(self).language_id,
                self.version == old(self).version,
            decreases changes@.len() - i,
        {
            let change = &changes[i];
            let next = match change.range {
                None => change.text.clone(),
                Some(range) => splice_text(self.content.as_str(), range, change.text.as_str()),
            };
            self.content = next;
            proof {
                let t = changes@.take(i + 1);
                assert(t.drop_last() =~= changes@.take(i as int));
                assert(t.last() == changes@[i as int]);
            }
            i = i + 1;
        }
        assert(changes@.take(i as int) =~= changes@);
    }

    /// A copy of this document.
    pub fn duplicate(&self) -> (r: Self)
        ensures
            r.uri@ == self.uri@,
            r.language_id@ == self.language_id@,
            r.version == self.version,
            r.content@ == self.content@,
    {
        Document {
            uri: self.uri.clone(),
            language_id: self.language_id.clone(),
            version: self.version,
            content: self.content.clone(),
        }
    }
}

/// What the store holds for one uri.
pub ghost struct DocumentView {
    pub language_id: Seq<char>,
    pub version: i32,
    pub content: Seq<char>,
}

pub open spec fn doc_view(d: Document) -> DocumentView {
    DocumentView { language_id: d.language_id@, version: d.version, content: d.content@ }
}

/// No two documents share a uri.
pub open spec fn uris_unique(docs: Seq<Document>) -> bool {
    forall|i: int, j: int|
        0 <= i < docs.len() && 0 <= j < docs.len() && i != j ==> (#[trigger] docs[i]).uri@
            != (#[trigger] docs[j]).uri@
}

/// The documents as a map from uri.
pub open spec fn docs_map(docs: Seq<Document>) -> Map<Seq<char>, DocumentView> {
    Map::new(
        |u: Seq<char>| exists|i: int| 0 <= i < docs.len() && (#[trigger] docs[i]).uri@ == u,
        |u: Seq<char>|
            {
                let i = choose|i: int| 0 <= i < docs.len() && (#[trigger] docs[i]).uri@ == u;
                doc_view(docs[i])
            },
    )
}

proof fn lemma_docs_map_at(docs: Seq<Document>, i: int)
    requires
        uris_unique(docs),
        0 <= i < docs.len(),
    ensures
        docs_map(docs).contains_key(docs[i].uri@),
        docs_map(docs)[docs[i].uri@] == doc_view(docs[i]),
{
    let u = docs[i].uri@;
    assert(docs[i].uri@ == u);
    let j = choose|j: int| 0 <= j < docs.len() && (#[trigger] docs[j]).uri@ == u;
    assert(docs[j].uri@ == u);
}

impl Default for DocumentCache {
    fn default() -> (r: Self)
        ensures
            r@ == Map::<Seq<char>, DocumentView>::empty(),
    {
        DocumentCache::new()
    }
}

/// An edit could not be applied.
#[derive(Debug, Clone, Copy, PartialEq, Eq, Structural)]
pub enum DocumentError {
    /// No document with that uri is open.
    NotOpen,
}

/// The open documents, one per uri.
#[derive(Debug)]
pub struct DocumentCache {
    documents: Vec<Document>,
}

impl View for DocumentCache {
    type V = Map<Seq<char>, DocumentView>;

    closed spec fn view(&self) -> Map<Seq<char>, DocumentView> {
        docs_map(self.documents@)
    }
}

impl DocumentCache {
    /// No two documents share a uri.
    #[verifier::type_invariant]
    closed spec fn inv(self) -> bool {
        uris_unique(self.documents@)
    }

    pub fn new() -> (r: Self)
        ensures
            r@ == Map::<Seq<char>, DocumentView>::empty(),
    {
        let r = DocumentCache { documents: Vec::new() };
        assert(r@ =~= Map::<Seq<char>, DocumentView>::empty());
        r
    }

    /// The index of the document with this uri, if one is open.
    fn position_of(&self, uri: &str) -> (r: Option<usize>)
        ensures
            match r {
                Some(i) => i < self.documents@.len() && self.documents@[i as int].uri@ == uri@,
                None => !self@.contains_key(uri@),
            },
    {
        let mut i: usize = 0;
        while i < self.documents.len()
            invariant
                i <= self.documents@.len(),
                forall|j: int| 0 <= j < i ==> (#[trigger] self.documents@[j]).uri@ != uri@,
            decreases self.documents@.len() - i,
        {
            if str_eq(self.documents[i].uri.as_str(), uri) {
                return Some(i);
            }
            i = i + 1;
        }
        None
    }

    /// Opens a document, replacing any open one with the same uri.
    pub fn insert(&mut self, uri: String, language_id: String, version: i32, content: String)
        ensures
            final(self)@ == old(self)@.insert(
                uri@,
                DocumentView { language_id: language_id@, version, content: content@ },
            ),
    {
        proof { use_type_invariant(&*self); }
        let ghost old_docs = self.documents@;
        let pos = self.position_of(uri.as_str());
        let doc = Document::new(uri, language_id, version, content);
        let ghost u = doc.uri@;
        let mut documents: Vec<Document> = Vec::new();
        std::mem::swap(&mut documents, &mut self.documents);
        match pos {
            Some(i) => {
                documents.set(i, doc);
            },
            None => {
                documents.push(doc);
            },
        }
        proof {
            let docs = documents@;
            let k = match pos { Some(i) => i as int, None => old_docs.len() as int };
            assert(docs[k].uri@ == u);
            assert forall|a: int, b: int|
                0 <= a < docs.len() && 0 <= b < docs.len() && a != b implies (#[trigger] docs[a]).uri@
                    != (#[trigger] docs[b]).uri@ by {
                if a != k && b != k {
                    assert(docs[a] == old_docs[a] && docs[b] == old_docs[b]);
                } else if a == k {
                    assert(docs[b] == old_docs[b]);
                    if pos is None {
                        assert(docs_map(old_docs).contains_key(u) ==> false);
                    }
                } else {
                    assert(docs[a] == old_docs[a]);
                }
            }
            let target = docs_map(old_docs).insert(u, doc_view(docs[k]));
            assert forall|x: Seq<char>| #[trigger] docs_map(docs).contains_key(x) <==> target.contains_key(x) by {
                if docs_map(docs).contains_key(x) {
                    let j = choose|j: int| 0 <= j < docs.len() && (#[trigger] docs[j]).uri@ == x;
                    if j != k {
                        assert(old_docs[j].uri@ == x);
                    }
                }
                if x != u && docs_map(old_docs).contains_key(x) {
                    let j = choose|j: int| 0 <= j < old_docs.len() && (#[trigger] old_docs[j]).uri@ == x;
                    assert(j != k);
                    assert(docs[j].uri@ == x);
                }
                if x == u {
                    assert(docs[k].uri@ == x);
                }
            }
            assert forall|x: Seq<char>| #[trigger] docs_map(docs).contains_key(x) implies docs_map(docs)[x] == target[x] by {
                let j = choose|j: int| 0 <= j < docs.len() && (#[trigger] docs[j]).uri@ == x;
                lemma_docs_map_at(docs, j);
                if j != k {
                    assert(docs[j] == old_docs[j]);
                    lemma_docs_map_at(old_docs, j);
                }
            }
            assert(docs_map(docs) =~= target);
        }
        self.documents = documents;
    }

    /// A copy of the open document with this uri.
    pub fn get(&self, uri: &str) -> (r: Option<Document>)
        ensures
            match r {
                Some(d) => self@.contains_key(uri@) && d.uri@ == uri@ && doc_view(d) == self@[uri@],
                None => !self@.contains_key(uri@),
            },
    {
        proof { use_type_invariant(self); }
        match self.position_of(uri) {
            Some(i) => {
                proof { lemma_docs_map_at(self.documents@, i as int); }
                Some(self.documents[i].duplicate())
            },
            None => None,
        }
    }

    /// Sets the version of an open document and applies the changes to it.
    pub fn update(&mut self, uri: &str, version: i32, changes: Vec<ContentChange>) -> (r: Result<(), DocumentError>)
        ensures
            r is Err <==> !old(self)@.contains_key(uri@),
            r is Ok ==> final(self)@ == old(self)@.insert(
                uri@,
                DocumentView {
                    language_id: old(self)@[uri@].language_id,
                    version,
                    content: apply_all(old(self)@[uri@].content, changes@),
                },
            ),
            r is Err ==> final(self)@ == old(self)@,
    {
        proof { use_type_invariant(&*self); }
        match self.position_of(uri) {
            Some(i) => {
                proof { lemma_docs_map_at(self.documents@, i as int); }
                let mut doc = self.documents[i].duplicate();
                doc.version = version;
                doc.apply_changes(changes);
                let ghost d = doc;
                let Document { uri: u, language_id, version: v, content } = doc;
                self.insert(u, language_id, v, content);
                Ok(())
            },
            None => Err(DocumentError::NotOpen),
        }
    }

    /// Closes the document with this uri, if one is open.
    pub fn remove(&mut self, uri: &str)
        ensures
            final(self)@ == old(self)@.remove(uri@),
    {
        proof { use_type_invariant(&*self); }
        let ghost old_docs = self.documents@;
        match self.position_of(uri) {
            Some(i) => {
                let mut documents: Vec<Document> = Vec::new();
                std::mem::swap(&mut documents, &mut self.documents);
                documents.remove(i);
                proof {
                    let docs = documents@;
                    assert(docs =~= old_docs.remove(i as int));
                    assert forall|a: int, b: int|
                        0 <= a < docs.len() && 0 <= b < docs.len() && a != b implies (#[trigger] docs[a]).uri@
                            != (#[trigger] docs[b]).uri@ by {
                        let a2 = if a < i { a } else { a + 1 };
                        let b2 = if b < i { b } else { b + 1 };
                        assert(docs[a] == old_docs[a2] && docs[b] == old_docs[b2]);
                    }
                    let target = docs_map(old_docs).remove(uri@);
                    assert forall|x: Seq<char>| #[trigger] docs_map(docs).contains_key(x) <==> target.contains_key(x) by {
                        if docs_map(docs).contains_key(x) {
                            let j = choose|j: int| 0 <= j < docs.len() && (#[trigger] docs[j]).uri@ == x;
                            let j2 = if j < i { j } else { j + 1 };
                            assert(old_docs[j2].uri@ == x);
                        }
                        if target.contains_key(x) {
                            let j = choose|j: int| 0 <= j < old_docs.len() && (#[trigger] old_docs[j]).uri@ == x;
                            assert(j != i);
                            let j2 = if j < i { j } else { j - 1 };
                            assert(docs[j2].uri@ == x);
                        }
                    }
                    assert forall|x: Seq<char>| #[trigger] docs_map(docs).contains_key(x) implies docs_map(docs)[x] == target[x] by {
                        let j = choose|j: int| 0 <= j < docs.len() && (#[trigger] docs[j]).uri@ == x;
                        lemma_docs_map_at(docs, j);
                        let j2 = if j < i { j } else { j + 1 };
                        assert(docs[j] == old_docs[j2]);
                        lemma_docs_map_at(old_docs, j2);
                    }
                    assert(docs_map(docs) =~= target);
                }
                self.documents = documents;
            },
            None => {
                assert(self@ =~= old(self)@.remove(uri@));
            },
        }
    }

    /// Copies of all open documents.
    pub fn all(&self) -> (r: Vec<Document>)
        ensures
            forall|i: int| 0 <= i < r@.len() ==> self@.contains_key((#[trigger] r@[i]).uri@)
                && doc_view(r@[i]) == self@[r@[i].uri@],
            forall|u: Seq<char>| #[trigger] self@.contains_key(u) ==> exists|i: int|
                0 <= i < r@.len() && (#[trigger] r@[i]).uri@ == u,
    {
        proof { use_type_invariant(self); }
        let mut r: Vec<Document> = Vec::new();
        let mut i: usize = 0;
        while i < self.documents.len()
            invariant
                uris_unique(self.documents@),
                i <= self.documents@.len(),
                r@.len() == i,
                forall|j: int| 0 <= j < i ==> self@.contains_key((#[trigger] r@[j]).uri@)
                    && doc_view(r@[j]) == self@[r@[j].uri@],
                forall|j: int| 0 <= j < i ==> (#[trigger] r@[j]).uri@ == self.documents@[j].uri@,
            decreases self.documents@.len() - i,
        {
            proof { lemma_docs_map_at(self.documents@, i as int); }
            r.push(self.documents[i].duplicate());
            i = i + 1;
        }
        assert forall|u: Seq<char>| #[trigger] self@.contains_key(u) implies exists|k: int|
            0 <= k < r@.len() && (#[trigger] r@[k]).uri@ == u by {
            let j = choose|j: int| 0 <= j < self.documents@.len() && (#[trigger] self.documents@[j]).uri@ == u;
            assert(r@[j].uri@ == u);
        }
        r
    }
}

} // verus!

//! Splitting text into lines the way `str::lines` does, as a specification
//! and as verified code that yields each line's bounds.

use vstd::prelude::*;

verus! {

/// The pieces of `s` between newline characters; always at least one.
pub open spec fn split_nl(s: Seq<char>) -> Seq<Seq<char>>
    decreases s.len(),
{
    if s.len() == 0 {
        seq![Seq::<char>::empty()]
    } else {
        let p = split_nl(s.drop_last());
        if s.last() == '\n' {
            p.push(Seq::<char>::empty())
        } else {
            p.update(p.len() - 1, p.last().push(s.last()))
        }
    }
}

/// A line that was ended by a newline loses one carriage return before it.
pub open spec fn strip_cr(l: Seq<char>) -> Seq<char> {
    if l.len() > 0 && l.last() == '\r' {
        l.drop_last()
    } else {
        l
    }
}

/// The lines of `s`: the pieces between newlines, without a `\r` before a
/// newline, and without the empty piece after a final newline.
pub open spec fn text_lines(s: Seq<char>) -> Seq<Seq<char>> {
    let p = split_nl(s);
    let body = Seq::new((p.len() - 1) as nat, |k: int| strip_cr(p[k]));
    if p.last().len() == 0 {
        body
    } else {
        body.push(p.last())
    }
}

pub proof fn lemma_split_nl_nonempty(s: Seq<char>)
    ensures
        split_nl(s).len() >= 1,
    decreases s.len(),
{
    if s.len() > 0 {
        lemma_split_nl_nonempty(s.drop_last());
    }
}

/// Bounds `(start, end)` into `cs` that hold exactly the pieces of
/// `split_nl(cs.take(i))` but the last, which starts at `cur`.
pub open spec fn pieces_match(cs: Seq<char>, i: int, done: Seq<(usize, usize)>, cur: int) -> bool {
    let p = split_nl(cs.take(i));
    &&& p.len() == done.len() + 1
    &&& 0 <= cur <= i <= cs.len()
    &&& p.last() == cs.subrange(cur, i)
    &&& forall|k: int|
        0 <= k < done.len() ==> {
            &&& (#[trigger] done[k]).0 <= done[k].1 <= cs.len()
            &&& p[k] == cs.subrange(done[k].0 as int, done[k].1 as int)
        }
}

/// The bounds of each line of `cs`, in the sense of `text_lines`.
pub fn line_bounds(cs: &Vec<char>) -> (r: Vec<(usize, usize)>)
    ensures
        r@.len() == text_lines(cs@).len(),
        forall|k: int|
            0 <= k < r@.len() ==> {
                &&& (#[trigger] r@[k]).0 <= r@[k].1 <= cs@.len()
                &&& cs@.subrange(r@[k].0 as int, r@[k].1 as int) == text_lines(cs@)[k]
            },
{
    let mut done: Vec<(usize, usize)> = Vec::new();
    let mut cur: usize = 0;
    let mut i: usize = 0;
    assert(cs@.take(0) =~= Seq::<char>::empty());
    assert(cs@.subrange(0, 0) =~= Seq::<char>::empty());
    while i < cs.len()
        invariant
            pieces_match(cs@, i as int, done@, cur as int),
        decreases cs@.len() - i,
    {
        let ghost old_done = done@;
        proof {
            assert(cs@.take(i + 1).drop_last() =~= cs@.take(i as int));
            lemma_split_nl_nonempty(cs@.take(i as int));
        }
        if cs[i] == '\n' {
            done.push((cur, i));
            cur = i + 1;
            proof {
                let p = split_nl(cs@.take(i + 1));
                assert(cs@.subrange(cur as int, i + 1) =~= Seq::<char>::empty());
                assert forall|k: int| 0 <= k < done@.len() implies {
                    &&& (#[trigger] done@[k]).0 <= done@[k].1 <= cs@.len()
                    &&& p[k] == cs@.subrange(done@[k].0 as int, done@[k].1 as int)
                } by {
                    if k < old_done.len() {
                        assert(done@[k] == old_done[k]);
                    }
                }
            }
        } else {
            proof {
                let p = split_nl(cs@.take(i + 1));
                assert(cs@.subrange(cur as int, i + 1) =~= cs@.subrange(cur as int, i as int).push(cs@[i as int]));
                assert forall|k: int| 0 <= k < done@.len() implies {
                    &&& (#[trigger] done@[k]).0 <= done@[k].1 <= cs@.len()
                    &&& p[k] == cs@.subrange(done@[k].0 as int, done@[k].1 as int)
                } by {
                }
            }
        }
        i = i + 1;
    }
    assert(cs@.take(i as int) =~= cs@);
    let ghost p = split_nl(cs@);
    // Lines ended by a newline, without the carriage return before it.
    let mut r: Vec<(usize, usize)> = Vec::new();
    let mut k: usize = 0;
    while k < done.len()
        invariant
            pieces_match(cs@, cs@.len() as int, done@, cur as int),
            p == split_nl(cs@),
            cs@.take(cs@.len() as int) == cs@,
            k <= done@.len(),
            r@.len() == k,
            forall|j: int|
                0 <= j < k ==> {
                    &&& (#[trigger] r@[j]).0 <= r@[j].1 <= cs@.len()
                    &&& cs@.subrange(r@[j].0 as int, r@[j].1 as int) == strip_cr(p[j])
                },
        decreases done@.len() - k,
    {
        let (a, b) = done[k];
        assert(done@[k as int] == (a, b));
        assert(p[k as int] == cs@.subrange(a as int, b as int));
        if b > a && cs[b - 1] == '\r' {
            assert(cs@.subrange(a as int, b - 1) =~= cs@.subrange(a as int, b as int).drop_last());
            r.push((a, b - 1));
        } else {
            r.push((a, b));
        }
        k = k + 1;
    }
    let ghost body = Seq::new((p.len() - 1) as nat, |j: int| strip_cr(p[j]));
    if cur < cs.len() {
        r.push((cur, cs.len()));
        assert(text_lines(cs@) == body.push(p.last()));
    } else {
        assert(p.last().len() == 0);
    }
    r
}

} // verus!

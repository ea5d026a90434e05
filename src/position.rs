//! Zero-based line/column positions and ranges inside a document.

use vstd::prelude::*;

verus! {

/// A (line, column) pair, both zero-based.
#[derive(Debug, Clone, Copy, PartialEq, Eq, Structural)]
pub struct Position {
    pub line: u32,
    pub character: u32,
}

/// A span between two positions.
#[derive(Debug, Clone, Copy, PartialEq, Eq, Structural)]
pub struct Range {
    pub start: Position,
    pub end: Position,
}

/// `a` comes no later than `b` in lexicographic (line, column) order.
pub open spec fn pos_le(a: Position, b: Position) -> bool {
    a.line < b.line || (a.line == b.line && a.character <= b.character)
}

/// `pos` lies within `range`, both ends included.
pub open spec fn spec_position_in_range(pos: Position, range: Range) -> bool {
    pos_le(range.start, pos) && pos_le(pos, range.end)
}

/// `inner` is contained in `outer`.
pub open spec fn range_within(inner: Range, outer: Range) -> bool {
    pos_le(outer.start, inner.start) && pos_le(inner.end, outer.end)
}

/// `inner` with each end moved to the nearest position of `outer` when it
/// falls outside it.
pub open spec fn clamp_spec(inner: Range, outer: Range) -> Range {
    Range {
        start: if pos_le(outer.start, inner.start) {
            if pos_le(inner.start, outer.end) { inner.start } else { outer.end }
        } else {
            outer.start
        },
        end: if pos_le(inner.end, outer.end) {
            if pos_le(outer.start, inner.end) { inner.end } else { outer.start }
        } else {
            outer.end
        },
    }
}

/// The range itself when ordered; else the empty range at its start.
pub open spec fn order_spec(r: Range) -> Range {
    if pos_le(r.start, r.end) {
        r
    } else {
        Range { start: r.start, end: r.start }
    }
}

/// The smallest range covering both.
pub open spec fn span_spec(a: Range, b: Range) -> Range {
    Range {
        start: if pos_le(a.start, b.start) { a.start } else { b.start },
        end: if pos_le(a.end, b.end) { b.end } else { a.end },
    }
}

/// A range is well formed when its start does not come after its end.
pub open spec fn range_ordered(r: Range) -> bool {
    pos_le(r.start, r.end)
}

/// Lexicographic comparison of two positions.
pub fn position_le(a: Position, b: Position) -> (r: bool)
    ensures
        r == pos_le(a, b),
{
    a.line < b.line || (a.line == b.line && a.character <= b.character)
}

/// Whether a position lies within a range, both ends included.
pub fn position_in_range(pos: Position, range: Range) -> (r: bool)
    ensures
        r == spec_position_in_range(pos, range),
{
    if pos.line < range.start.line || pos.line > range.end.line {
        return false;
    }
    if pos.line == range.start.line && pos.character < range.start.character {
        return false;
    }
    if pos.line == range.end.line && pos.character > range.end.character {
        return false;
    }
    true
}

/// Shrinks `inner` so that it lies within `outer`: each end is moved to the
/// nearest position of `outer` when it falls outside it.
pub fn clamp_range(inner: Range, outer: Range) -> (r: Range)
    requires
        range_ordered(outer),
    ensures
        r == clamp_spec(inner, outer),
        range_within(r, outer),
        range_ordered(inner) ==> range_ordered(r),
        range_ordered(inner) && range_within(inner, outer) ==> r == inner,
{
    let start = if position_le(outer.start, inner.start) {
        if position_le(inner.start, outer.end) { inner.start } else { outer.end }
    } else {
        outer.start
    };
    let end = if position_le(inner.end, outer.end) {
        if position_le(outer.start, inner.end) { inner.end } else { outer.start }
    } else {
        outer.end
    };
    Range { start, end }
}

/// The range itself when ordered; else the empty range at its start.
pub fn order_range(r: Range) -> (o: Range)
    ensures
        o == order_spec(r),
        range_ordered(o),
{
    if position_le(r.start, r.end) {
        r
    } else {
        Range { start: r.start, end: r.start }
    }
}

/// The smallest range covering both.
pub fn span_range(a: Range, b: Range) -> (r: Range)
    ensures
        r == span_spec(a, b),
        range_ordered(a) && range_ordered(b) ==> range_ordered(r),
{
    Range {
        start: if position_le(a.start, b.start) { a.start } else { b.start },
        end: if position_le(a.end, b.end) { b.end } else { a.end },
    }
}

} // verus!

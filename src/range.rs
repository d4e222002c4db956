use vstd::prelude::*;

verus! {

/// A half-open span `[start, end)` of byte offsets into the source text.
#[derive(Clone, Copy, Debug, PartialEq, Eq, Structural)]
pub struct DependencyRange {
    pub start: u32,
    pub end: u32,
}

impl DependencyRange {
    pub fn new(start: u32, end: u32) -> (r: DependencyRange)
        ensures
            r.start == start,
            r.end == end,
    {
        DependencyRange { start, end }
    }
}

/// Whether two optional spans can be joined: at least one is present, and
/// when both are, the first does not start after the second ends.
pub open spec fn joinable(start: Option<(u32, u32)>, end: Option<(u32, u32)>) -> bool {
    match (start, end) {
        (None, None) => false,
        (Some(s), Some(e)) => s.0 <= e.1,
        _ => true,
    }
}

/// The span that runs from the start of `start` to the end of `end`; a
/// missing side takes the other side whole.
pub open spec fn joined(start: Option<(u32, u32)>, end: Option<(u32, u32)>) -> (u32, u32) {
    match (start, end) {
        (Some(s), Some(e)) => (s.0, e.1),
        (Some(s), None) => s,
        (None, Some(e)) => e,
        (None, None) => (0, 0),
    }
}

pub open spec fn as_pair(r: Option<DependencyRange>) -> Option<(u32, u32)> {
    match r {
        Some(d) => Some((d.start, d.end)),
        None => None,
    }
}

pub open spec fn ref_pair(r: Option<&DependencyRange>) -> Option<(u32, u32)> {
    match r {
        Some(d) => Some((d.start, d.end)),
        None => None,
    }
}

/// Joins two optional spans into the span from the first's start to the
/// second's end.
pub fn join_ranges(start: Option<(u32, u32)>, end: Option<(u32, u32)>) -> (r: (u32, u32))
    requires
        joinable(start, end),
    ensures
        r == joined(start, end),
{
    match (start, end) {
        (Some(s), Some(e)) => (s.0, e.1),
        (Some(s), None) => s,
        (None, Some(e)) => e,
        (None, None) => (0, 0),
    }
}

/// `join_ranges` over the spans of two evaluated values.
pub fn join_locations(start: Option<&DependencyRange>, end: Option<&DependencyRange>) -> (r: (
    u32,
    u32,
))
    requires
        joinable(ref_pair(start), ref_pair(end)),
    ensures
        r == joined(ref_pair(start), ref_pair(end)),
{
    let s = match start {
        Some(d) => Some((d.start, d.end)),
        None => None,
    };
    let e = match end {
        Some(d) => Some((d.start, d.end)),
        None => None,
    };
    join_ranges(s, e)
}

} // verus!

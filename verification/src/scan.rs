//! Byte scanning over wire data: first occurrence of a byte, first
//! occurrence of the CRLF CRLF header/body boundary, and copies of ranges.

use vstd::prelude::*;

verus! {

/// The position of the first occurrence of `b` in `s` at or after `i`.
pub open spec fn spec_find_byte(s: Seq<u8>, b: u8, i: int) -> Option<int>
    decreases s.len() - i,
{
    if i < 0 || i >= s.len() {
        None
    } else if s[i] == b {
        Some(i)
    } else {
        spec_find_byte(s, b, i + 1)
    }
}

/// Whether the four bytes of `s` starting at `i` are CR LF CR LF.
pub open spec fn boundary_at(s: Seq<u8>, i: int) -> bool {
    &&& 0 <= i
    &&& i + 4 <= s.len()
    &&& s[i] == 13
    &&& s[i + 1] == 10
    &&& s[i + 2] == 13
    &&& s[i + 3] == 10
}

/// The position of the first CRLF CRLF boundary in `s` at or after `i`.
pub open spec fn spec_find_boundary(s: Seq<u8>, i: int) -> Option<int>
    decreases s.len() - i,
{
    if i < 0 || i + 4 > s.len() {
        None
    } else if boundary_at(s, i) {
        Some(i)
    } else {
        spec_find_boundary(s, i + 1)
    }
}

/// A CRLF CRLF at `b`, with none between `k` and `b`, is the first one
/// found from `k`.
pub proof fn lemma_find_boundary_first(s: Seq<u8>, k: int, b: int)
    requires
        0 <= k <= b,
        boundary_at(s, b),
        forall|i: int| k <= i < b ==> !boundary_at(s, i),
    ensures
        spec_find_boundary(s, k) == Some(b),
    decreases b - k,
{
    if k < b {
        lemma_find_boundary_first(s, k + 1, b);
    }
}

/// A sequence with no CRLF CRLF anywhere has none to find.
pub proof fn lemma_find_boundary_none(s: Seq<u8>, k: int)
    requires
        0 <= k,
        forall|i: int| !boundary_at(s, i),
    ensures
        spec_find_boundary(s, k) is None,
    decreases s.len() - k,
{
    if k + 4 <= s.len() {
        lemma_find_boundary_none(s, k + 1);
    }
}

/// Finds the first occurrence of `b` in `s` at or after `from`.
pub fn find_byte(s: &Vec<u8>, b: u8, from: usize) -> (r: Option<usize>)
    ensures
        match r {
            Some(j) => spec_find_byte(s@, b, from as int) == Some(j as int) && from <= j
                < s@.len(),
            None => spec_find_byte(s@, b, from as int) is None,
        },
{
    let mut k = from;
    while k < s.len()
        invariant
            from <= k,
            spec_find_byte(s@, b, from as int) == spec_find_byte(s@, b, k as int),
        decreases s.len() - k,
    {
        if s[k] == b {
            return Some(k);
        }
        k = k + 1;
    }
    None
}

/// Finds the first CRLF CRLF boundary in `s`.
pub fn find_boundary(s: &Vec<u8>) -> (r: Option<usize>)
    ensures
        match r {
            Some(j) => spec_find_boundary(s@, 0) == Some(j as int) && boundary_at(s@, j as int),
            None => spec_find_boundary(s@, 0) is None,
        },
{
    if s.len() < 4 {
        return None;
    }
    let mut k: usize = 0;
    while k <= s.len() - 4
        invariant
            s@.len() >= 4,
            spec_find_boundary(s@, 0) == spec_find_boundary(s@, k as int),
        decreases s.len() - k,
    {
        if s[k] == 13 && s[k + 1] == 10 && s[k + 2] == 13 && s[k + 3] == 10 {
            return Some(k);
        }
        k = k + 1;
    }
    None
}

/// Copies `s[from..to]` into a fresh vector.
pub fn copy_range(s: &Vec<u8>, from: usize, to: usize) -> (r: Vec<u8>)
    requires
        from <= to <= s@.len(),
    ensures
        r@ == s@.subrange(from as int, to as int),
{
    let mut out: Vec<u8> = Vec::new();
    let mut k = from;
    while k < to
        invariant
            from <= k <= to <= s@.len(),
            out@ == s@.subrange(from as int, k as int),
        decreases to - k,
    {
        out.push(s[k]);
        assert(out@ =~= s@.subrange(from as int, k + 1 as int));
        k = k + 1;
    }
    out
}

} // verus!

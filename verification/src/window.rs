//! Assembly of raised-cosine (Hann) taper windows from their first half.
//!
//! A window of length `n` is symmetric about its centre. To guarantee exact
//! symmetry of the stored values, the second half is never recomputed from
//! the cosine formula: it is mirrored, entry by entry, from the first half.
//! The numeric half table itself is computed by the caller (the cosine is a
//! floating-point kernel that lives outside this library); these functions
//! pin down exactly which table entry lands at which window position.
//!
//! Two variants exist:
//! - the symmetric window (`w[i] == w[n-1-i]`), used to cross-fade
//!   overlapping chunks, whose half table holds positions `0 ..= (n-1)/2`;
//! - the periodic window (`w[i] == w[n-i]` for `i >= 1`, with `w[0]` the
//!   taper's zero value), used inside the spectral transform, whose half
//!   table holds positions `1 ..= n/2`.

use vstd::prelude::*;

verus! {

/// The position of the half-table entry that a symmetric window of length
/// `length` stores at position `i`: the first half is taken as given, the
/// second half mirrors it around the centre.
pub open spec fn sym_source(length: int, i: int) -> int {
    if i < (length + 1) / 2 {
        i
    } else {
        length - 1 - i
    }
}

/// Builds the full symmetric window of length `length` from the half table
/// `half`, which holds the window values at positions `0 ..= (length-1)/2`.
/// Position `i` of the result is `half[sym_source(length, i)]`, so the
/// mirror equation `res[length-1-i] == res[i]` holds exactly.
pub fn hann_symmetric_from_half<T: Copy>(half: &Vec<T>, length: usize) -> (res: Vec<T>)
    requires
        length < usize::MAX,
        half@.len() == (length + 1) / 2,
    ensures
        res@.len() == length,
        forall|i: int| 0 <= i < length ==> res@[i] == half@[sym_source(length as int, i)],
{
    let half_length: usize = (length + 1) / 2;
    let mut res: Vec<T> = Vec::new();
    let mut i: usize = 0;
    while i < half_length
        invariant
            i <= half_length,
            half_length == (length + 1) / 2,
            half@.len() == half_length,
            res@.len() == i,
            forall|j: int| 0 <= j < i ==> res@[j] == half@[sym_source(length as int, j)],
        decreases half_length - i,
    {
        res.push(half[i]);
        i += 1;
    }
    while i < length
        invariant
            half_length <= i <= length,
            half_length == (length + 1) / 2,
            half@.len() == half_length,
            res@.len() == i,
            forall|j: int| 0 <= j < i ==> res@[j] == half@[sym_source(length as int, j)],
        decreases length - i,
    {
        res.push(half[length - 1 - i]);
        i += 1;
    }
    res
}

/// Exact symmetry of the assembled symmetric window: the value at `i`
/// equals the value at `length - 1 - i`, for every position.
pub proof fn lemma_symmetric_window_mirror<T>(w: Seq<T>, half: Seq<T>, length: int, i: int)
    requires
        0 <= length,
        half.len() == (length + 1) / 2,
        w.len() == length,
        forall|j: int| 0 <= j < length ==> w[j] == half[sym_source(length, j)],
        0 <= i < length,
    ensures
        w[i] == w[length - 1 - i],
{
    assert(sym_source(length, i) == sym_source(length, length - 1 - i));
}

/// The position of the half-table entry that a periodic window of length
/// `length` stores at position `i >= 1`; entry `k` of the table is the
/// window value at position `k + 1`.
pub open spec fn periodic_source(length: int, i: int) -> int {
    if i <= length / 2 {
        i - 1
    } else {
        length - i - 1
    }
}

/// Builds the full periodic window of length `length` from `first` (the
/// value at position 0) and the half table `half`, which holds the window
/// values at positions `1 ..= length/2`. Every later position mirrors the
/// table: `res[length - i] == res[i]` for `1 <= i <= length/2`.
///
/// A window of length 1 is a special case of the taper (its single value is
/// not given by the half table, which is empty there) and is left to the
/// caller.
pub fn hann_periodic_from_half<T: Copy>(first: T, half: &Vec<T>, length: usize) -> (res: Vec<T>)
    requires
        length != 1,
        half@.len() == length / 2,
    ensures
        res@.len() == length,
        length > 0 ==> res@[0] == first,
        forall|i: int| 1 <= i < length ==> res@[i] == half@[periodic_source(length as int, i)],
{
    let mut res: Vec<T> = Vec::new();
    if length == 0 {
        return res;
    }
    res.push(first);
    let half_length: usize = length / 2;
    let mut i: usize = 1;
    while i <= half_length
        invariant
            1 <= i <= half_length + 1,
            half_length == length / 2,
            length >= 2,
            half@.len() == half_length,
            res@.len() == i,
            res@[0] == first,
            forall|j: int| 1 <= j < i ==> res@[j] == half@[periodic_source(length as int, j)],
        decreases half_length + 1 - i,
    {
        res.push(half[i - 1]);
        i += 1;
    }
    while i < length
        invariant
            half_length + 1 <= i <= length,
            half_length == length / 2,
            length >= 2,
            half@.len() == half_length,
            res@.len() == i,
            res@[0] == first,
            forall|j: int| 1 <= j < i ==> res@[j] == half@[periodic_source(length as int, j)],
        decreases length - i,
    {
        res.push(half[length - i - 1]);
        i += 1;
    }
    res
}

/// Exact symmetry of the assembled periodic window: the value at `i`
/// equals the value at `length - i`, for every interior position.
pub proof fn lemma_periodic_window_mirror<T>(w: Seq<T>, half: Seq<T>, length: int, i: int)
    requires
        2 <= length,
        half.len() == length / 2,
        w.len() == length,
        forall|j: int| 1 <= j < length ==> w[j] == half[periodic_source(length, j)],
        1 <= i < length,
    ensures
        w[i] == w[length - i],
{
    if i == length - i {
    } else {
        assert(periodic_source(length, i) == periodic_source(length, length - i));
    }
}

} // verus!

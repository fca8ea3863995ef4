//! Where a label hangs on a flattened curve.

use vstd::prelude::*;

verus! {

/// The index of the middle point among `len` points: half of `len`, rounded
/// down. There is none among no points.
pub open spec fn median_of(len: nat) -> Option<nat> {
    if len == 0 {
        None
    } else {
        Some(len / 2)
    }
}

/// The index of the middle point of a flattened curve of `len` points.
pub fn median_index(len: usize) -> (index: Option<usize>)
    ensures
        index is None <==> len == 0,
        index matches Some(i) ==> i < len && median_of(len as nat) == Some(i as nat),
{
    if len == 0 {
        None
    } else {
        Some(len / 2)
    }
}

/// The middle point of a flattened curve: the point a label hangs on.
pub fn median<T>(points: &Vec<T>) -> (point: Option<&T>)
    ensures
        point is None <==> points@.len() == 0,
        point matches Some(p) ==> *p == points@[points@.len() as int / 2],
{
    match median_index(points.len()) {
        Some(i) => Some(&points[i]),
        None => None,
    }
}

} // verus!

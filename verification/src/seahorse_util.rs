use vstd::prelude::*;

verus! {

/// The position that `index` names in a sequence of length `len`, counting
/// from the end when `index` is negative (`-1` is the last element).
pub open spec fn wrapped_position(len: int, index: int) -> int {
    if index >= 0 {
        index
    } else {
        index + len
    }
}

/// Resolves a possibly negative index into a sequence of length `len`:
/// a non-negative index stands for itself, a negative one counts back from
/// the end.
///
/// The index must name a position that fits in `usize`: a non-negative one
/// at most `usize::MAX`, a negative one no further back than `-len`.
pub fn wrapped_index(len: usize, index: i128) -> (position: usize)
    requires
        index >= 0 ==> index <= usize::MAX,
        index < 0 ==> index + len >= 0,
    ensures
        position == wrapped_position(len as int, index as int),
        index < 0 ==> position < len,
{
    if index >= 0 {
        return index as usize;
    }
    let shifted: i128 = index + len as i128;
    shifted as usize
}

} // verus!

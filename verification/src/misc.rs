//! Small helpers shared by the rendering collaborator.
use vstd::prelude::*;

use vstd::string::StrSliceExecFns;

verus! {

/// The length (in characters) of the longest string of `v`, or 0 when `v` is
/// empty.
pub fn max_str_len(v: &Vec<String>) -> (r: usize)
    ensures
        forall|i: int| 0 <= i < v@.len() ==> (#[trigger] v@[i])@.len() <= r,
        r != 0 ==> exists|i: int| 0 <= i < v@.len() && (#[trigger] v@[i])@.len() == r,
{
    let mut best: usize = 0;
    let mut j: usize = 0;
    while j < v.len()
        invariant
            j <= v@.len(),
            forall|i: int| 0 <= i < j ==> (#[trigger] v@[i])@.len() <= best,
            best != 0 ==> exists|i: int| 0 <= i < j && (#[trigger] v@[i])@.len() == best,
        decreases v@.len() - j,
    {
        let l = v[j].as_str().unicode_len();
        if l > best {
            best = l;
        }
        j += 1;
    }
    best
}

} // verus!

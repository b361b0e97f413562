//! Helpers on vectors.
use vstd::prelude::*;

verus! {

/// The elements of `v` in reverse order.
pub fn reversed<T>(v: Vec<T>) -> (r: Vec<T>)
    ensures
        r@.len() == v@.len(),
        forall|i: int| 0 <= i < v@.len() ==> #[trigger] r@[i] == v@[v@.len() - 1 - i],
{
    let ghost all = v@;
    let mut v = v;
    let mut r = Vec::new();
    while v.len() > 0
        invariant
            v@.len() + r@.len() == all.len(),
            v@ == all.take(v@.len() as int),
            forall|i: int| 0 <= i < r@.len() ==> #[trigger] r@[i] == all[all.len() - 1 - i],
        decreases v.len(),
    {
        let x = v.pop().unwrap();
        r.push(x);
    }
    r
}

} // verus!

use vstd::prelude::*;

verus! {

/// Division truncated toward zero — what `/` computes on Rust's signed
/// integers — written over the Euclidean division of specifications.
pub open spec fn div_trunc(a: int, b: int) -> int {
    if a >= 0 {
        a / b
    } else {
        -((-a) / b)
    }
}

} // verus!

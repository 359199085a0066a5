//! Arithmetic that the contracts share.

use vstd::prelude::*;

verus! {

/// `a` less `b`, and zero where `b` is the greater.
pub open spec fn floor_sub(a: int, b: int) -> int {
    if a >= b {
        a - b
    } else {
        0
    }
}

} // verus!

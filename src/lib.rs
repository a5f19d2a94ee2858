use vstd::prelude::*;

pub mod chat;
pub mod compositor;
pub mod frame;
pub mod mapper;
pub mod pipeline;

verus! {

/// The smaller of two integers.
pub open spec fn min_int(a: int, b: int) -> int {
    if a <= b {
        a
    } else {
        b
    }
}

} // verus!

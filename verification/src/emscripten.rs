//! Helpers of the emscripten target.
use vstd::prelude::*;

verus! {

/// The 32-bit integer whose four bytes are those of `x` in reverse order.
pub open spec fn spec_swap_bytes(x: i32) -> i32 {
    let u = x as u32;
    (((u & 0xff) << 24) | ((u & 0xff00) << 8) | ((u >> 8) & 0xff00) | (u >> 24)) as i32
}

/// The 32-bit integer whose four bytes are those of `x` in reverse order.
pub fn swap_bytes(x: i32) -> (r: i32)
    ensures
        r == spec_swap_bytes(x),
{
    let u: u32 = #[verifier::truncate] (x as u32);
    let swapped: u32 = ((u & 0xff) << 24) | ((u & 0xff00) << 8) | ((u >> 8) & 0xff00) | (u >> 24);
    #[verifier::truncate] (swapped as i32)
}

/// Reverses the byte order of the 64-bit integer whose halves are `low` and
/// `high`. The first result is the low half of the reversed integer, which is
/// what the caller returns; the second is its high half, which the caller
/// leaves as the second return value of the environment.
pub fn _llvm_bswap_i64(low: i32, high: i32) -> (r: (i32, i32))
    ensures
        r.0 == spec_swap_bytes(high),
        r.1 == spec_swap_bytes(low),
{
    (swap_bytes(high), swap_bytes(low))
}

} // verus!

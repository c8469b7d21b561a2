//! Read-modify-write helper for memory-mapped register fields.
//!
//! Every register update in the bring-up sequence that must not disturb
//! unrelated bits goes through `set_field`: it clears exactly the bits of
//! `mask` and then ors in `value`, which is required to lie inside `mask`.

use vstd::prelude::*;

verus! {

/// What a read-modify-write produces: the bits of `mask` are replaced by
/// `value`, every other bit keeps its old state.
pub open spec fn rmw(reg: u32, mask: u32, value: u32) -> u32 {
    (reg & !mask) | value
}

/// Compute the new value for a register field update.
///
/// All bits outside `mask` are unchanged and the bits of `mask` are set to
/// exactly `value`.
pub fn set_field(reg: u32, mask: u32, value: u32) -> (r: u32)
    requires
        value & !mask == 0,
    ensures
        r == rmw(reg, mask, value),
        r & !mask == reg & !mask,
        r & mask == value,
{
    let r = (reg & !mask) | value;
    proof {
        assert((((reg & !mask) | value) & !mask) == (reg & !mask)) by (bit_vector)
            requires
                value & !mask == 0u32,
        ;
        assert((((reg & !mask) | value) & mask) == value) by (bit_vector)
            requires
                value & !mask == 0u32,
        ;
    }
    r
}

} // verus!

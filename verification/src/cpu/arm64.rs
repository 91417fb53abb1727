//! What the encoding of ARM64 instructions takes from the mode of a value.

use vstd::prelude::*;
use crate::ty::MachineMode;

verus! {

/// The bit of an instruction that says whether it works on 64 bits: set for
/// pointers, clear for bytes and 32-bit values.
pub fn size_flag(mode: MachineMode) -> (r: u32)
    requires
        mode is Int8 || mode is Int32 || mode is Ptr,
    ensures
        r == (if mode is Ptr {
            1u32
        } else {
            0u32
        }),
{
    match mode {
        MachineMode::Int8 | MachineMode::Int32 => 0,
        _ => 1,
    }
}

} // verus!

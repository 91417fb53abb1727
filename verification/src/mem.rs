//! Sizes and rounding of the target machine.

use vstd::prelude::*;
use crate::free_slots::{align_up, lemma_align_up};

verus! {

/// The width of a pointer of the target, in bytes.
pub open spec fn spec_ptr_width() -> int {
    8
}

/// The alignment that a frame's size has when prologue and epilogue read it.
pub open spec fn spec_stack_frame_alignment() -> int {
    16
}

/// The size of the header of an object, in bytes: the pointer to the table
/// of methods and one word for the collector.
pub open spec fn spec_header_size() -> int {
    2 * spec_ptr_width()
}

pub fn header_size() -> (r: i32)
    ensures
        r == spec_header_size(),
{
    2 * ptr_width()
}

pub fn ptr_width_usize() -> (r: usize)
    ensures
        r == spec_ptr_width(),
{
    8
}

pub fn ptr_width() -> (r: i32)
    ensures
        r == spec_ptr_width(),
{
    8
}

pub fn stack_frame_alignment() -> (r: i32)
    ensures
        r == spec_stack_frame_alignment(),
{
    16
}

/// Rounds `value` up to the next multiple of `align`; an `align` of zero
/// leaves the value as it is.
pub fn align_i32(value: i32, align: i32) -> (r: i32)
    requires
        0 <= value,
        0 <= align,
        align_up(value as int, align as int) <= i32::MAX,
    ensures
        r == align_up(value as int, align as int),
{
    if align == 0 {
        return value;
    }
    proof {
        lemma_align_up(value as int, align as int);
    }
    let rem: i32 = value % align;
    if rem == 0 {
        value
    } else {
        value + (align - rem)
    }
}

} // verus!

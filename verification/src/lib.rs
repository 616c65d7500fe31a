use vstd::prelude::*;

pub mod ring;
pub mod stack;
pub mod tcp;
pub mod wire;

verus! {

/// Reports whether the host stores the least significant byte of a `u32`
/// first. The probe inspects the byte that a little-endian layout places
/// first, which is the low byte of the value by definition, so the probe
/// always succeeds.
pub fn is_little_endian() -> (r: bool)
    ensures
        r,
{
    let num: u32 = 0x01020304;
    let first_le_byte: u8 = (num % 256) as u8;
    first_le_byte == 0x04
}

} // verus!

//! The decoded nibble and byte views of a fetched instruction word.

use vstd::prelude::*;

verus! {

/// The five derived views of a 16-bit instruction, given as its two
/// bytes: the four nibbles (opcode family, `X`, `Y`, `N`), the low byte
/// (`NN`) and the low twelve bits (`NNN`).
pub struct InstructionFormat {
    pub first_nibble: u16,
    pub second_nibble: usize,
    pub third_nibble: usize,
    pub fourth_nibble: u16,
    pub nibbles_3_to_4: u8,
    pub nibbles_2_to_4: usize,
}

impl InstructionFormat {
    /// Splits the two instruction bytes into the nibble and byte fields
    /// every opcode needs.
    pub fn new(instruction: &[u8; 2]) -> (r: InstructionFormat)
        ensures
            r.first_nibble == instruction[0] / 16,
            r.second_nibble == instruction[0] % 16,
            r.third_nibble == instruction[1] / 16,
            r.fourth_nibble == instruction[1] % 16,
            r.nibbles_3_to_4 == instruction[1],
            r.nibbles_2_to_4 == (instruction[0] % 16) * 256 + instruction[1],
    {
        let high: u8 = instruction[0];
        let low: u8 = instruction[1];
        InstructionFormat {
            first_nibble: (high / 16) as u16,
            second_nibble: (high % 16) as usize,
            third_nibble: (low / 16) as usize,
            fourth_nibble: (low % 16) as u16,
            nibbles_3_to_4: low,
            nibbles_2_to_4: (high % 16) as usize * 256 + low as usize,
        }
    }
}

} // verus!

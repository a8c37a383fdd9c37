//! Bit-field extraction over 8- and 16-bit words.
//!
//! The extractor pulls a contiguous bit range, counted from the least
//! significant bit, out of a 16-bit word, and a companion operation
//! composes two bytes into one big-endian 16-bit word.

use vstd::arithmetic::power2::pow2;
use vstd::arithmetic::power2::lemma2_to64;
use vstd::bits::lemma_u16_shr_is_div;
use vstd::bits::lemma_u16_shl_is_mul;
use vstd::bits::lemma_u16_low_bits_mask_is_mod;
use vstd::bits::low_bits_mask;
use vstd::prelude::*;

verus! {

/// The value of the bit range `[start, end)` of `num`, counted from the
/// least significant bit: the bits are shifted down to position zero.
pub open spec fn bit_range_spec(num: u16, start: nat, end: nat) -> nat
    recommends
        start <= end <= 16,
{
    ((num as nat) / pow2(start)) % pow2((end - start) as nat)
}

/// Composes two bytes into one 16-bit word, the first byte at the high
/// end: the big-endian byte order used when fetching an instruction.
pub open spec fn word_from_bytes(left: u8, right: u8) -> u16 {
    (left * 256 + right) as u16
}

/// Extracts the bit range `[start, end)` of `num`, counted from the least
/// significant bit, right-shifted down to position zero. Reports an
/// invalid range (`None`) exactly when `start > end`, `start >= 16` or
/// `end > 16`; extracting `[0, 16)` returns the whole value unchanged.
pub fn bit_range_to_num(num: u16, start: usize, end: usize) -> (r: Option<u16>)
    ensures
        r is None <==> (start > end || start >= 16 || end > 16),
        r is Some ==> r->0 == bit_range_spec(num, start as nat, end as nat),
{
    if start > end || start >= 16 || end > 16 {
        return None;
    }
    let shifted = num >> (start as u16);
    proof {
        lemma_u16_shr_is_div(num, start as u16);
    }
    let len = (end - start) as u16;
    if len >= 16 {
        proof {
            lemma2_to64();
            assert(num < pow2(16));
            assert((num as nat) / pow2(0) == num as nat) by {
                vstd::arithmetic::div_mod::lemma_div_basics(num as int);
            }
            assert((num as nat) % pow2(16) == num as nat) by {
                vstd::arithmetic::div_mod::lemma_small_mod(num as nat, pow2(16));
            }
            assert(shifted == bit_range_spec(num, start as nat, end as nat));
        }
        Some(shifted)
    } else {
        proof {
            vstd::arithmetic::power2::lemma_pow2_strictly_increases(len as nat, 16);
            vstd::arithmetic::power2::lemma_pow2_pos(len as nat);
            lemma2_to64();
            lemma_u16_shl_is_mul(1u16, len);
        }
        let mask = (1u16 << len) - 1;
        proof {
            assert(mask == low_bits_mask(len as nat));
            lemma_u16_low_bits_mask_is_mod(shifted, len as nat);
            assert(shifted & mask == shifted % (pow2(len as nat) as u16));
            assert(shifted == (num as nat) / pow2(start as nat));
            assert(shifted & mask == bit_range_spec(num, start as nat, end as nat));
        }
        Some(shifted & mask)
    }
}

/// Composes the two bytes of `nums` into one 16-bit word, the first byte
/// placed at the high end (big-endian).
pub fn append_number_bits(nums: &[u8; 2]) -> (r: u16)
    ensures
        r == word_from_bytes(nums[0], nums[1]),
{
    let left: u8 = nums[0];
    let right: u8 = nums[1];
    let r = ((left as u16) << 8u16) | (right as u16);
    proof {
        assert(((left as u16) << 8u16) | (right as u16) == left as u16 * 256 + right as u16)
            by (bit_vector);
    }
    r
}

/// Extracts the closed bit range `[start, end]` of `instruction`, counted
/// from the least significant bit. A range that starts past the top bit,
/// or runs backwards, yields zero; a range reaching past bit 15 yields
/// the bits up to and including bit 15.
pub fn get_value_from_bit_range(instruction: u16, start: u8, end: u8) -> (r: u16)
    ensures
        (start > end || start >= 16) ==> r == 0,
        (start <= end && start < 16) ==> r == bit_range_spec(
            instruction,
            start as nat,
            if end >= 15 { 16nat } else { (end + 1) as nat },
        ),
{
    if start > end || start >= 16 {
        return 0;
    }
    let end_half_open: usize = if end >= 15 {
        16
    } else {
        (end + 1) as usize
    };
    match bit_range_to_num(instruction, start as usize, end_half_open) {
        Some(v) => v,
        None => {
            proof {
                assert(false);
            }
            0
        },
    }
}

} // verus!

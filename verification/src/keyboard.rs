//! The characters accepted as keypad input, and their validation.
//!
//! A host reads raw keyboard events however it likes; the logic here
//! only decides whether a typed character belongs to the 4x4 key grid
//! (plus the kill switch) and hands valid ones through.

use vstd::prelude::*;

verus! {

/// The characters of the 4x4 keypad grid (`1234` / `qwer` / `asdf` /
/// `zxcv`), with `p` as a kill switch.
pub open spec fn valid_key_characters() -> Seq<char> {
    seq!['1', '2', '3', '4', 'q', 'w', 'e', 'r', 'a', 's', 'd', 'f', 'z', 'x', 'c', 'v', 'p']
}

/// Builds the set of characters accepted as keypad input.
pub fn init_hashset() -> (r: Vec<char>)
    ensures
        r@ == valid_key_characters(),
{
    let r: Vec<char> = vec![
        '1', '2', '3', '4', 'q', 'w', 'e', 'r', 'a', 's', 'd', 'f', 'z', 'x', 'c', 'v', 'p',
    ];
    proof {
        assert(r@ =~= valid_key_characters());
    }
    r
}

/// Hands the pressed character through exactly when it is one of the
/// accepted keypad characters.
pub fn parse_character(pressed: char, valid_characters: &Vec<char>) -> (r: Option<char>)
    ensures
        r == if valid_characters@.contains(pressed) {
            Some(pressed)
        } else {
            None::<char>
        },
{
    let mut i: usize = 0;
    while i < valid_characters.len()
        invariant
            i <= valid_characters@.len(),
            forall|j: int| 0 <= j < i ==> valid_characters@[j] != pressed,
        decreases valid_characters@.len() - i,
    {
        if valid_characters[i] == pressed {
            return Some(pressed);
        }
        i = i + 1;
    }
    proof {
        assert(!valid_characters@.contains(pressed));
    }
    None
}

} // verus!

//! A CHIP-8 interpreter core, verified with Verus.
//!
//! The crate models the machine itself: a 4096-byte memory with a font
//! region, sixteen byte registers, an index register and program counter,
//! a call stack, two saturating timers, a 64x32 monochrome display and a
//! 16-key keypad snapshot. The decoder turns a 16-bit instruction word
//! into an operation with its arguments, and the executor applies that
//! operation to the machine state, honoring a set of quirk toggles that
//! reconcile historically divergent CHIP-8 conventions.
//!
//! Windowing, rendering, audio and physical-key mapping are host
//! concerns: the core only reads and writes the plain display grid and
//! keypad snapshot defined here.

pub mod bit_utils;
pub mod emulator;
pub mod instruction;
pub mod instruction_format;
pub mod keyboard;
pub mod laws;
pub mod screen;
pub mod stack;
pub mod timer;

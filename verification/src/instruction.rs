//! Decoding a 16-bit instruction word into an operation with arguments,
//! and executing it against the machine.
//!
//! The decoder performs the two-level dispatch of the instruction set:
//! first on the leading nibble (the opcode family), then, for the
//! families that need it, on a secondary nibble or byte. An instruction
//! that matches no table entry is reported as an unknown opcode; the
//! dispatcher treats that as a harmless no-op.

use crate::emulator::Chip8Error;
use crate::emulator::Emulator;
use crate::emulator::eq_machine;
use crate::emulator::rel_add_registers;
use crate::emulator::rel_add_to_index;
use crate::emulator::rel_add_to_register;
use crate::emulator::rel_binary_and;
use crate::emulator::rel_binary_coded_decimal_conversion;
use crate::emulator::rel_binary_or;
use crate::emulator::rel_binary_xor;
use crate::emulator::rel_call_subroutine;
use crate::emulator::rel_display;
use crate::emulator::rel_get_key_dispatch;
use crate::emulator::rel_jump;
use crate::emulator::rel_jump_with_offset;
use crate::emulator::rel_left_shift_on_register;
use crate::emulator::rel_random;
use crate::emulator::rel_right_shift_on_register;
use crate::emulator::rel_set_delay_timer_to_register;
use crate::emulator::rel_set_index_register;
use crate::emulator::rel_set_index_register_to_font_character;
use crate::emulator::rel_set_register;
use crate::emulator::rel_set_register_to_delay_timer;
use crate::emulator::rel_set_register_to_other;
use crate::emulator::rel_set_sound_timer_to_register;
use crate::emulator::rel_skip_if_press_status;
use crate::emulator::rel_skip_if_register_equals_value;
use crate::emulator::rel_skip_if_register_not_equal_to_value;
use crate::emulator::rel_skip_if_registers_equal;
use crate::emulator::rel_skip_if_registers_not_equal;
use crate::emulator::rel_stack_return;
use crate::emulator::rel_store_memory_to_registers;
use crate::emulator::rel_store_registers_to_memory;
use crate::emulator::rel_subtract_registers;
use crate::screen::Screen;
use vstd::prelude::*;

verus! {

/// The leading nibble of an instruction word: the opcode family.
pub open spec fn family_of(i: u16) -> u16 {
    i / 0x1000
}

/// The second nibble: the register index `X`.
pub open spec fn x_of(i: u16) -> u16 {
    (i / 0x100) % 16
}

/// The third nibble: the register index `Y`.
pub open spec fn y_of(i: u16) -> u16 {
    (i / 16) % 16
}

/// The fourth nibble: the 4-bit immediate `N`.
pub open spec fn n_of(i: u16) -> u16 {
    i % 16
}

/// The low byte: the 8-bit immediate `NN`.
pub open spec fn nn_of(i: u16) -> u16 {
    i % 0x100
}

/// The low twelve bits: the address `NNN`.
pub open spec fn nnn_of(i: u16) -> u16 {
    i % 0x1000
}

/// The operations of the instruction set, named with the opcode pattern
/// each one decodes from.
#[derive(Clone, Copy, Debug, PartialEq, Eq, Structural)]
pub enum Operation {
    ClearScreen00E0,
    SubroutineReturn00EE,
    Jump1NNN,
    Subroutine2NNN,
    SkipIfEqual3XNN,
    SkipIfNotEqual4XNN,
    SkipIfRegistersEqual5XY0,
    SetRegisterTo6XNN,
    AddNumToRegister7XNN,
    SetOneRegisterToAnother8XY0,
    BinaryOrRegisters8XY1,
    BinaryAndRegisters8XY2,
    BinaryXorRegister8XY3,
    AddRegisterToRegister8XY4,
    SubtractRightFromLeft8XY5,
    ShiftRight8XY6,
    SubtractLeftFromRight8XY7,
    ShiftLeft8XYE,
    SkipIfRegistersNotEqual9XY0,
    SetIndexANNN,
    JumpWithOffsetBNNN,
    RandomCXNN,
    DisplayDXYN,
    SkipIfPressedEX9E,
    SkipIfNotPressedEXA1,
    SetToDelayTimerFX07,
    GetKeyFX0A,
    SetDelayTimerToFX15,
    SetSoundTimerToFX18,
    AddToIndexFX1E,
    SetRegisterToCharacterFX29,
    BinaryCodedDecimalConversionFX33,
    StoreToMemoryFX55,
    LoadFromMemoryFX65,
}

/// Arguments of an operation on two registers: `X`, `Y` and the 4-bit
/// immediate `N`.
#[derive(Clone, Copy, Debug, PartialEq, Eq, Structural)]
pub struct TwoRegister {
    pub x_register: u16,
    pub y_register: u16,
    pub n_number: u16,
}

/// Arguments of an operation on one register: `X` and the 8-bit
/// immediate `NN`.
#[derive(Clone, Copy, Debug, PartialEq, Eq, Structural)]
pub struct OneRegister {
    pub x_register: u16,
    pub nn_number: u16,
}

/// Arguments of an operation on no register: the 12-bit address `NNN`.
#[derive(Clone, Copy, Debug, PartialEq, Eq, Structural)]
pub struct NoRegister {
    pub nnn_number: u16,
}

/// The three argument shapes an instruction can decode to: two
/// registers and a nibble (`_XYN`), one register and a byte (`_XNN`),
/// or a bare address (`_NNN`).
#[derive(Clone, Copy, Debug, PartialEq, Eq, Structural)]
pub enum RegisterStructure {
    Two(TwoRegister),
    One(OneRegister),
    No(NoRegister),
}

/// The decoded arguments of an instruction.
#[derive(Clone, Copy, Debug, PartialEq, Eq, Structural)]
pub struct InstructionArguments {
    pub body: RegisterStructure,
}

impl InstructionArguments {
    /// The register index `X` carried by the arguments, 0 for a bare
    /// address.
    pub open spec fn spec_x(self) -> u16 {
        match self.body {
            RegisterStructure::Two(t) => t.x_register,
            RegisterStructure::One(o) => o.x_register,
            RegisterStructure::No(_) => 0,
        }
    }

    /// The register index `Y` carried by the arguments, 0 elsewhere.
    pub open spec fn spec_y(self) -> u16 {
        match self.body {
            RegisterStructure::Two(t) => t.y_register,
            _ => 0,
        }
    }

    /// The 4-bit immediate `N` carried by the arguments, 0 elsewhere.
    pub open spec fn spec_n(self) -> u16 {
        match self.body {
            RegisterStructure::Two(t) => t.n_number,
            _ => 0,
        }
    }

    /// The 8-bit immediate `NN` carried by the arguments, 0 elsewhere.
    pub open spec fn spec_nn(self) -> u16 {
        match self.body {
            RegisterStructure::One(o) => o.nn_number,
            _ => 0,
        }
    }

    /// The 12-bit address `NNN` carried by the arguments, 0 elsewhere.
    pub open spec fn spec_nnn(self) -> u16 {
        match self.body {
            RegisterStructure::No(n) => n.nnn_number,
            _ => 0,
        }
    }

    /// Every argument field fits its width: register indices below 16,
    /// the byte below 256, the address below 0x1000.
    pub open spec fn wf(self) -> bool {
        match self.body {
            RegisterStructure::Two(t) => t.x_register < 16 && t.y_register < 16 && t.n_number
                < 16,
            RegisterStructure::One(o) => o.x_register < 16 && o.nn_number < 256,
            RegisterStructure::No(n) => n.nnn_number < 0x1000,
        }
    }

    /// Reads the register index `X`.
    pub fn x(&self) -> (r: u16)
        ensures
            r == self.spec_x(),
    {
        match &self.body {
            RegisterStructure::Two(t) => t.x_register,
            RegisterStructure::One(o) => o.x_register,
            RegisterStructure::No(_) => 0,
        }
    }

    /// Reads the register index `Y`.
    pub fn y(&self) -> (r: u16)
        ensures
            r == self.spec_y(),
    {
        match &self.body {
            RegisterStructure::Two(t) => t.y_register,
            _ => 0,
        }
    }

    /// Reads the 4-bit immediate `N`.
    pub fn n(&self) -> (r: u16)
        ensures
            r == self.spec_n(),
    {
        match &self.body {
            RegisterStructure::Two(t) => t.n_number,
            _ => 0,
        }
    }

    /// Reads the 8-bit immediate `NN`.
    pub fn nn(&self) -> (r: u16)
        ensures
            r == self.spec_nn(),
    {
        match &self.body {
            RegisterStructure::One(o) => o.nn_number,
            _ => 0,
        }
    }

    /// Reads the 12-bit address `NNN`.
    pub fn nnn(&self) -> (r: u16)
        ensures
            r == self.spec_nnn(),
    {
        match &self.body {
            RegisterStructure::No(n) => n.nnn_number,
            _ => 0,
        }
    }
}

/// A decoded instruction: which operation runs, and with which
/// arguments.
#[derive(Clone, Copy, Debug, PartialEq, Eq, Structural)]
pub struct InstructionSignature {
    pub operation: Operation,
    pub arguments: InstructionArguments,
}

/// Arguments with the shape `_NNN`.
pub open spec fn sig_no(op: Operation, nnn: u16) -> InstructionSignature {
    InstructionSignature {
        operation: op,
        arguments: InstructionArguments {
            body: RegisterStructure::No(NoRegister { nnn_number: nnn }),
        },
    }
}

/// Arguments with the shape `_XNN`.
pub open spec fn sig_one(op: Operation, x: u16, nn: u16) -> InstructionSignature {
    InstructionSignature {
        operation: op,
        arguments: InstructionArguments {
            body: RegisterStructure::One(OneRegister { x_register: x, nn_number: nn }),
        },
    }
}

/// Arguments with the shape `_XYN`.
pub open spec fn sig_two(op: Operation, x: u16, y: u16, n: u16) -> InstructionSignature {
    InstructionSignature {
        operation: op,
        arguments: InstructionArguments {
            body: RegisterStructure::Two(
                TwoRegister { x_register: x, y_register: y, n_number: n },
            ),
        },
    }
}

impl InstructionSignature {
    /// A well-formed signature carries arguments whose fields fit their
    /// widths.
    pub open spec fn wf(self) -> bool {
        self.arguments.wf()
    }
}

/// The decode table: the operation and arguments each instruction word
/// decodes to, or nothing for a word that matches no table entry.
pub open spec fn decode_spec(i: u16) -> Option<InstructionSignature> {
    let x = x_of(i);
    let y = y_of(i);
    let n = n_of(i);
    let nn = nn_of(i);
    let nnn = nnn_of(i);
    if family_of(i) == 0x0 {
        if i == 0x00E0 {
            Some(sig_no(Operation::ClearScreen00E0, 0))
        } else if i == 0x00EE {
            Some(sig_no(Operation::SubroutineReturn00EE, 0))
        } else {
            None
        }
    } else if family_of(i) == 0x1 {
        Some(sig_no(Operation::Jump1NNN, nnn))
    } else if family_of(i) == 0x2 {
        Some(sig_no(Operation::Subroutine2NNN, nnn))
    } else if family_of(i) == 0x3 {
        Some(sig_one(Operation::SkipIfEqual3XNN, x, nn))
    } else if family_of(i) == 0x4 {
        Some(sig_one(Operation::SkipIfNotEqual4XNN, x, nn))
    } else if family_of(i) == 0x5 {
        if n == 0 {
            Some(sig_two(Operation::SkipIfRegistersEqual5XY0, x, y, 0))
        } else {
            None
        }
    } else if family_of(i) == 0x6 {
        Some(sig_one(Operation::SetRegisterTo6XNN, x, nn))
    } else if family_of(i) == 0x7 {
        Some(sig_one(Operation::AddNumToRegister7XNN, x, nn))
    } else if family_of(i) == 0x8 {
        if n == 0x0 {
            Some(sig_two(Operation::SetOneRegisterToAnother8XY0, x, y, n))
        } else if n == 0x1 {
            Some(sig_two(Operation::BinaryOrRegisters8XY1, x, y, n))
        } else if n == 0x2 {
            Some(sig_two(Operation::BinaryAndRegisters8XY2, x, y, n))
        } else if n == 0x3 {
            Some(sig_two(Operation::BinaryXorRegister8XY3, x, y, n))
        } else if n == 0x4 {
            Some(sig_two(Operation::AddRegisterToRegister8XY4, x, y, n))
        } else if n == 0x5 {
            Some(sig_two(Operation::SubtractRightFromLeft8XY5, x, y, n))
        } else if n == 0x6 {
            Some(sig_two(Operation::ShiftRight8XY6, x, y, n))
        } else if n == 0x7 {
            Some(sig_two(Operation::SubtractLeftFromRight8XY7, x, y, n))
        } else if n == 0xE {
            Some(sig_two(Operation::ShiftLeft8XYE, x, y, n))
        } else {
            None
        }
    } else if family_of(i) == 0x9 {
        if n == 0 {
            Some(sig_two(Operation::SkipIfRegistersNotEqual9XY0, x, y, 0))
        } else {
            None
        }
    } else if family_of(i) == 0xA {
        Some(sig_no(Operation::SetIndexANNN, nnn))
    } else if family_of(i) == 0xB {
        Some(sig_no(Operation::JumpWithOffsetBNNN, nnn))
    } else if family_of(i) == 0xC {
        Some(sig_one(Operation::RandomCXNN, x, nn))
    } else if family_of(i) == 0xD {
        Some(sig_two(Operation::DisplayDXYN, x, y, n))
    } else if family_of(i) == 0xE {
        if nn == 0x9E {
            Some(sig_one(Operation::SkipIfPressedEX9E, x, 0))
        } else if nn == 0xA1 {
            Some(sig_one(Operation::SkipIfNotPressedEXA1, x, 0))
        } else {
            None
        }
    } else {
        if nn == 0x07 {
            Some(sig_one(Operation::SetToDelayTimerFX07, x, 0))
        } else if nn == 0x0A {
            Some(sig_one(Operation::GetKeyFX0A, x, 0))
        } else if nn == 0x15 {
            Some(sig_one(Operation::SetDelayTimerToFX15, x, 0))
        } else if nn == 0x18 {
            Some(sig_one(Operation::SetSoundTimerToFX18, x, 0))
        } else if nn == 0x1E {
            Some(sig_one(Operation::AddToIndexFX1E, x, 0))
        } else if nn == 0x29 {
            Some(sig_one(Operation::SetRegisterToCharacterFX29, x, 0))
        } else if nn == 0x33 {
            Some(sig_one(Operation::BinaryCodedDecimalConversionFX33, x, 0))
        } else if nn == 0x55 {
            Some(sig_one(Operation::StoreToMemoryFX55, x, 0))
        } else if nn == 0x65 {
            Some(sig_one(Operation::LoadFromMemoryFX65, x, 0))
        } else {
            None
        }
    }
}

/// Decodes an instruction word by the two-level dispatch of the table:
/// the opcode family first, then the secondary nibble or byte for the
/// families that need one. A word matching no entry is reported as an
/// unknown opcode.
pub fn decode(instruction: u16) -> (r: Result<InstructionSignature, Chip8Error>)
    ensures
        r == match decode_spec(instruction) {
            Some(sig) => Ok::<InstructionSignature, Chip8Error>(sig),
            None => Err::<InstructionSignature, Chip8Error>(Chip8Error::UnknownOpcode),
        },
        (r matches Ok(sig) ==> sig.wf()),
{
    let family = instruction / 0x1000;
    let x = (instruction / 0x100) % 16;
    let y = (instruction / 16) % 16;
    let n = instruction % 16;
    let nn = instruction % 0x100;
    let nnn = instruction % 0x1000;
    match family {
        0x0 => {
            if instruction == 0x00E0 {
                Ok(build_no(Operation::ClearScreen00E0, 0))
            } else if instruction == 0x00EE {
                Ok(build_no(Operation::SubroutineReturn00EE, 0))
            } else {
                Err(Chip8Error::UnknownOpcode)
            }
        },
        0x1 => Ok(build_no(Operation::Jump1NNN, nnn)),
        0x2 => Ok(build_no(Operation::Subroutine2NNN, nnn)),
        0x3 => Ok(build_one(Operation::SkipIfEqual3XNN, x, nn)),
        0x4 => Ok(build_one(Operation::SkipIfNotEqual4XNN, x, nn)),
        0x5 => {
            if n == 0 {
                Ok(build_two(Operation::SkipIfRegistersEqual5XY0, x, y, 0))
            } else {
                Err(Chip8Error::UnknownOpcode)
            }
        },
        0x6 => Ok(build_one(Operation::SetRegisterTo6XNN, x, nn)),
        0x7 => Ok(build_one(Operation::AddNumToRegister7XNN, x, nn)),
        0x8 => {
            match n {
                0x0 => Ok(build_two(Operation::SetOneRegisterToAnother8XY0, x, y, n)),
                0x1 => Ok(build_two(Operation::BinaryOrRegisters8XY1, x, y, n)),
                0x2 => Ok(build_two(Operation::BinaryAndRegisters8XY2, x, y, n)),
                0x3 => Ok(build_two(Operation::BinaryXorRegister8XY3, x, y, n)),
                0x4 => Ok(build_two(Operation::AddRegisterToRegister8XY4, x, y, n)),
                0x5 => Ok(build_two(Operation::SubtractRightFromLeft8XY5, x, y, n)),
                0x6 => Ok(build_two(Operation::ShiftRight8XY6, x, y, n)),
                0x7 => Ok(build_two(Operation::SubtractLeftFromRight8XY7, x, y, n)),
                0xE => Ok(build_two(Operation::ShiftLeft8XYE, x, y, n)),
                _ => Err(Chip8Error::UnknownOpcode),
            }
        },
        0x9 => {
            if n == 0 {
                Ok(build_two(Operation::SkipIfRegistersNotEqual9XY0, x, y, 0))
            } else {
                Err(Chip8Error::UnknownOpcode)
            }
        },
        0xA => Ok(build_no(Operation::SetIndexANNN, nnn)),
        0xB => Ok(build_no(Operation::JumpWithOffsetBNNN, nnn)),
        0xC => Ok(build_one(Operation::RandomCXNN, x, nn)),
        0xD => Ok(build_two(Operation::DisplayDXYN, x, y, n)),
        0xE => {
            match nn {
                0x9E => Ok(build_one(Operation::SkipIfPressedEX9E, x, 0)),
                0xA1 => Ok(build_one(Operation::SkipIfNotPressedEXA1, x, 0)),
                _ => Err(Chip8Error::UnknownOpcode),
            }
        },
        _ => {
            match nn {
                0x07 => Ok(build_one(Operation::SetToDelayTimerFX07, x, 0)),
                0x0A => Ok(build_one(Operation::GetKeyFX0A, x, 0)),
                0x15 => Ok(build_one(Operation::SetDelayTimerToFX15, x, 0)),
                0x18 => Ok(build_one(Operation::SetSoundTimerToFX18, x, 0)),
                0x1E => Ok(build_one(Operation::AddToIndexFX1E, x, 0)),
                0x29 => Ok(build_one(Operation::SetRegisterToCharacterFX29, x, 0)),
                0x33 => Ok(build_one(Operation::BinaryCodedDecimalConversionFX33, x, 0)),
                0x55 => Ok(build_one(Operation::StoreToMemoryFX55, x, 0)),
                0x65 => Ok(build_one(Operation::LoadFromMemoryFX65, x, 0)),
                _ => Err(Chip8Error::UnknownOpcode),
            }
        },
    }
}

/// Builds a signature with the shape `_NNN`.
fn build_no(op: Operation, nnn: u16) -> (r: InstructionSignature)
    ensures
        r == sig_no(op, nnn),
{
    InstructionSignature {
        operation: op,
        arguments: InstructionArguments {
            body: RegisterStructure::No(NoRegister { nnn_number: nnn }),
        },
    }
}

/// Builds a signature with the shape `_XNN`.
fn build_one(op: Operation, x: u16, nn: u16) -> (r: InstructionSignature)
    ensures
        r == sig_one(op, x, nn),
{
    InstructionSignature {
        operation: op,
        arguments: InstructionArguments {
            body: RegisterStructure::One(OneRegister { x_register: x, nn_number: nn }),
        },
    }
}

/// Builds a signature with the shape `_XYN`.
fn build_two(op: Operation, x: u16, y: u16, n: u16) -> (r: InstructionSignature)
    ensures
        r == sig_two(op, x, y, n),
{
    InstructionSignature {
        operation: op,
        arguments: InstructionArguments {
            body: RegisterStructure::Two(TwoRegister { x_register: x, y_register: y, n_number: n }),
        },
    }
}

/// What executing the decoded instruction `sig` does: the per-operation
/// relation between the machine and screen before and after, and the
/// reported result.
pub open spec fn exec_rel(
    sig: InstructionSignature,
    pre: Emulator,
    post: Emulator,
    scr0: Seq<bool>,
    scr1: Seq<bool>,
    r: Result<(), Chip8Error>,
) -> bool {
    let x = sig.arguments.spec_x() as usize;
    let y = sig.arguments.spec_y() as usize;
    let n = sig.arguments.spec_n() as usize;
    let nn = sig.arguments.spec_nn() as u8;
    let nnn = sig.arguments.spec_nnn() as usize;
    match sig.operation {
        Operation::ClearScreen00E0 => r == Ok::<(), Chip8Error>(()) && eq_machine(pre, post)
            && scr1.len() == 2048 && (forall|p: int| 0 <= p < 2048 ==> !scr1[p]),
        Operation::SubroutineReturn00EE => rel_stack_return(pre, post, r) && scr1 == scr0,
        Operation::Jump1NNN => r == Ok::<(), Chip8Error>(()) && rel_jump(pre, post, nnn) && scr1
            == scr0,
        Operation::Subroutine2NNN => r == Ok::<(), Chip8Error>(()) && rel_call_subroutine(
            pre,
            post,
            nnn,
        ) && scr1 == scr0,
        Operation::SkipIfEqual3XNN => r == Ok::<(), Chip8Error>(())
            && rel_skip_if_register_equals_value(pre, post, x, nn) && scr1 == scr0,
        Operation::SkipIfNotEqual4XNN => r == Ok::<(), Chip8Error>(())
            && rel_skip_if_register_not_equal_to_value(pre, post, x, nn) && scr1 == scr0,
        Operation::SkipIfRegistersEqual5XY0 => r == Ok::<(), Chip8Error>(())
            && rel_skip_if_registers_equal(pre, post, x, y) && scr1 == scr0,
        Operation::SetRegisterTo6XNN => r == Ok::<(), Chip8Error>(()) && rel_set_register(
            pre,
            post,
            x,
            nn,
        ) && scr1 == scr0,
        Operation::AddNumToRegister7XNN => r == Ok::<(), Chip8Error>(()) && rel_add_to_register(
            pre,
            post,
            x,
            nn,
        ) && scr1 == scr0,
        Operation::SetOneRegisterToAnother8XY0 => r == Ok::<(), Chip8Error>(())
            && rel_set_register_to_other(pre, post, x, y) && scr1 == scr0,
        Operation::BinaryOrRegisters8XY1 => r == Ok::<(), Chip8Error>(()) && rel_binary_or(
            pre,
            post,
            x,
            y,
        ) && scr1 == scr0,
        Operation::BinaryAndRegisters8XY2 => r == Ok::<(), Chip8Error>(()) && rel_binary_and(
            pre,
            post,
            x,
            y,
        ) && scr1 == scr0,
        Operation::BinaryXorRegister8XY3 => r == Ok::<(), Chip8Error>(()) && rel_binary_xor(
            pre,
            post,
            x,
            y,
        ) && scr1 == scr0,
        Operation::AddRegisterToRegister8XY4 => r == Ok::<(), Chip8Error>(()) && rel_add_registers(
            pre,
            post,
            x,
            y,
        ) && scr1 == scr0,
        Operation::SubtractRightFromLeft8XY5 => r == Ok::<(), Chip8Error>(())
            && rel_subtract_registers(pre, post, x, y) && scr1 == scr0,
        Operation::ShiftRight8XY6 => r == Ok::<(), Chip8Error>(()) && rel_right_shift_on_register(
            pre,
            post,
            x,
            y,
        ) && scr1 == scr0,
        Operation::SubtractLeftFromRight8XY7 => r == Ok::<(), Chip8Error>(())
            && rel_subtract_registers(pre, post, y, x) && scr1 == scr0,
        Operation::ShiftLeft8XYE => r == Ok::<(), Chip8Error>(()) && rel_left_shift_on_register(
            pre,
            post,
            x,
            y,
        ) && scr1 == scr0,
        Operation::SkipIfRegistersNotEqual9XY0 => r == Ok::<(), Chip8Error>(())
            && rel_skip_if_registers_not_equal(pre, post, x, y) && scr1 == scr0,
        Operation::SetIndexANNN => r == Ok::<(), Chip8Error>(()) && rel_set_index_register(
            pre,
            post,
            nnn,
        ) && scr1 == scr0,
        Operation::JumpWithOffsetBNNN => r == Ok::<(), Chip8Error>(()) && (
        if pre.quirks.jump_uses_vx {
            rel_jump_with_offset(pre, post, Some((nnn / 0x100) as usize), nnn)
        } else {
            rel_jump_with_offset(pre, post, None, nnn)
        }) && scr1 == scr0,
        Operation::RandomCXNN => r == Ok::<(), Chip8Error>(()) && rel_random(pre, post, x, nn)
            && scr1 == scr0,
        Operation::DisplayDXYN => rel_display(pre, post, scr0, scr1, x, y, n, r),
        Operation::SkipIfPressedEX9E => r == Ok::<(), Chip8Error>(()) && rel_skip_if_press_status(
            pre,
            post,
            x,
            true,
        ) && scr1 == scr0,
        Operation::SkipIfNotPressedEXA1 => r == Ok::<(), Chip8Error>(())
            && rel_skip_if_press_status(pre, post, x, false) && scr1 == scr0,
        Operation::SetToDelayTimerFX07 => r == Ok::<(), Chip8Error>(())
            && rel_set_register_to_delay_timer(pre, post, x) && scr1 == scr0,
        Operation::GetKeyFX0A => r == Ok::<(), Chip8Error>(()) && rel_get_key_dispatch(
            pre,
            post,
            x,
        ) && scr1 == scr0,
        Operation::SetDelayTimerToFX15 => r == Ok::<(), Chip8Error>(())
            && rel_set_delay_timer_to_register(pre, post, x) && scr1 == scr0,
        Operation::SetSoundTimerToFX18 => r == Ok::<(), Chip8Error>(())
            && rel_set_sound_timer_to_register(pre, post, x) && scr1 == scr0,
        Operation::AddToIndexFX1E => r == Ok::<(), Chip8Error>(()) && rel_add_to_index(
            pre,
            post,
            x,
        ) && scr1 == scr0,
        Operation::SetRegisterToCharacterFX29 => r == Ok::<(), Chip8Error>(())
            && rel_set_index_register_to_font_character(pre, post, x) && scr1 == scr0,
        Operation::BinaryCodedDecimalConversionFX33 => rel_binary_coded_decimal_conversion(
            pre,
            post,
            x,
            r,
        ) && scr1 == scr0,
        Operation::StoreToMemoryFX55 => rel_store_registers_to_memory(pre, post, x, r) && scr1
            == scr0,
        Operation::LoadFromMemoryFX65 => rel_store_memory_to_registers(pre, post, x, r) && scr1
            == scr0,
    }
}

impl InstructionSignature {
    /// Runs the decoded operation against the machine and the display
    /// surface, reporting the fatal errors the operation can raise.
    pub fn execute(&self, emulator: &mut Emulator, screen: &mut Screen) -> (r: Result<
        (),
        Chip8Error,
    >)
        requires
            old(emulator).wf(),
            old(screen).wf(),
            self.wf(),
            old(emulator).program_counter >= 2,
            old(emulator).program_counter + 2 <= usize::MAX,
        ensures
            final(emulator).wf(),
            final(screen).wf(),
            exec_rel(
                *self,
                *old(emulator),
                *final(emulator),
                old(screen).pixels@,
                final(screen).pixels@,
                r,
            ),
    {
        let x = self.arguments.x() as usize;
        let y = self.arguments.y() as usize;
        let n = self.arguments.n() as usize;
        let nn = self.arguments.nn() as u8;
        let nnn = self.arguments.nnn() as usize;
        match self.operation {
            Operation::ClearScreen00E0 => {
                screen.clear();
                Ok(())
            },
            Operation::SubroutineReturn00EE => emulator.stack_return(),
            Operation::Jump1NNN => {
                emulator.jump(nnn);
                Ok(())
            },
            Operation::Subroutine2NNN => {
                emulator.call_subroutine(nnn);
                Ok(())
            },
            Operation::SkipIfEqual3XNN => {
                emulator.skip_if_register_equals_value(x, nn);
                Ok(())
            },
            Operation::SkipIfNotEqual4XNN => {
                emulator.skip_if_register_not_equal_to_value(x, nn);
                Ok(())
            },
            Operation::SkipIfRegistersEqual5XY0 => {
                emulator.skip_if_registers_equal(x, y);
                Ok(())
            },
            Operation::SetRegisterTo6XNN => {
                emulator.set_register(x, nn);
                Ok(())
            },
            Operation::AddNumToRegister7XNN => {
                emulator.add_to_register(x, nn);
                Ok(())
            },
            Operation::SetOneRegisterToAnother8XY0 => {
                emulator.set_register_to_other(x, y);
                Ok(())
            },
            Operation::BinaryOrRegisters8XY1 => {
                emulator.binary_or(x, y);
                Ok(())
            },
            Operation::BinaryAndRegisters8XY2 => {
                emulator.binary_and(x, y);
                Ok(())
            },
            Operation::BinaryXorRegister8XY3 => {
                emulator.binary_xor(x, y);
                Ok(())
            },
            Operation::AddRegisterToRegister8XY4 => {
                emulator.add_registers(x, y);
                Ok(())
            },
            Operation::SubtractRightFromLeft8XY5 => {
                emulator.subtract_registers(x, y);
                Ok(())
            },
            Operation::ShiftRight8XY6 => {
                emulator.right_shift_on_register(x, y);
                Ok(())
            },
            Operation::SubtractLeftFromRight8XY7 => {
                emulator.subtract_registers(y, x);
                Ok(())
            },
            Operation::ShiftLeft8XYE => {
                emulator.left_shift_on_register(x, y);
                Ok(())
            },
            Operation::SkipIfRegistersNotEqual9XY0 => {
                emulator.skip_if_registers_not_equal(x, y);
                Ok(())
            },
            Operation::SetIndexANNN => {
                emulator.set_index_register(nnn);
                Ok(())
            },
            Operation::JumpWithOffsetBNNN => {
                if emulator.quirks.jump_uses_vx {
                    emulator.jump_with_offset(Some(nnn / 0x100), nnn);
                } else {
                    emulator.jump_with_offset(None, nnn);
                }
                Ok(())
            },
            Operation::RandomCXNN => {
                emulator.random(x, nn);
                Ok(())
            },
            Operation::DisplayDXYN => emulator.draw_to_screen(x, y, n, screen),
            Operation::SkipIfPressedEX9E => {
                emulator.skip_if_press_status(x, true);
                Ok(())
            },
            Operation::SkipIfNotPressedEXA1 => {
                emulator.skip_if_press_status(x, false);
                Ok(())
            },
            Operation::SetToDelayTimerFX07 => {
                emulator.set_register_to_delay_timer(x);
                Ok(())
            },
            Operation::GetKeyFX0A => {
                let key = emulator.newly_pressed;
                emulator.newly_pressed = None;
                emulator.get_key(x, key);
                Ok(())
            },
            Operation::SetDelayTimerToFX15 => {
                emulator.set_delay_timer_to_register(x);
                Ok(())
            },
            Operation::SetSoundTimerToFX18 => {
                emulator.set_sound_timer_to_register(x);
                Ok(())
            },
            Operation::AddToIndexFX1E => {
                emulator.add_to_index(x);
                Ok(())
            },
            Operation::SetRegisterToCharacterFX29 => {
                emulator.set_index_register_to_font_character(x);
                Ok(())
            },
            Operation::BinaryCodedDecimalConversionFX33 => {
                emulator.binary_coded_decimal_conversion(x)
            },
            Operation::StoreToMemoryFX55 => emulator.store_registers_to_memory(x),
            Operation::LoadFromMemoryFX65 => emulator.store_memory_to_registers(x),
        }
    }
}

} // verus!

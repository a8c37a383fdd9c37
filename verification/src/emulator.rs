//! The machine state and the semantics of every operation.
//!
//! An [`Emulator`] holds the memory, registers, call stack, timers and
//! keypad snapshot. Each opcode of the instruction set is a method whose
//! contract states, through a relation between the state before and the
//! state after, exactly what the operation does; the quirk toggles select
//! between historically divergent behaviors at dispatch time.

use crate::screen::Screen;
use crate::stack::Stack;
use crate::timer::Timer;
use vstd::prelude::*;

verus! {

/// The number of addressable memory bytes.
pub const MEMORY_SIZE: usize = 4096;

/// The first address of the fixed font region.
pub const FONT_MEMORY_START: usize = 0x50;

/// The address at which ROM bytes are loaded and execution starts.
pub const PROGRAM_START: usize = 0x200;

/// The errors the interpreter reports. Stack underflow and memory
/// overruns indicate a malformed program and halt the run; a too-large
/// ROM is refused before any execution; an unknown opcode is reported by
/// the decoder alone and is treated by the dispatcher as a harmless
/// no-op.
#[derive(Clone, Copy, Debug, PartialEq, Eq, Structural)]
pub enum Chip8Error {
    StackUnderflow,
    MemoryOverrun,
    RomTooLarge,
    UnknownOpcode,
}

/// The quirk toggles that reconcile divergent CHIP-8 conventions, fixed
/// for the lifetime of a run.
#[derive(Clone, Copy, Debug, PartialEq, Eq, Structural)]
pub struct Quirks {
    /// `8XY6`/`8XYE` first copy `VY` into `VX` (original COSMAC VIP).
    pub shift_uses_vy: bool,
    /// `BNNN` jumps to `NNN + VX` with `X` the top nibble of `NNN`
    /// instead of `NNN + V0` (CHIP-48/SUPER-CHIP).
    pub jump_uses_vx: bool,
    /// `FX55`/`FX65` leave the index register incremented by `X + 1`
    /// (original COSMAC VIP).
    pub index_autoincrement: bool,
    /// `FX1E` sets `VF` to 1 when the index register overflows 0xFFFF.
    pub index_overflow_flag: bool,
}

/// The CHIP-8 machine: a flat memory with a font region, sixteen byte
/// registers, an index register, a program counter, a call stack, the
/// two timers, and the keypad snapshot the host refreshes once per tick.
pub struct Emulator {
    pub memory: Vec<u8>,
    pub stack: Stack<usize>,
    pub delay_timer: Timer,
    pub sound_timer: Timer,
    pub keypad: Vec<bool>,
    pub newly_pressed: Option<u8>,
    pub program_counter: usize,
    pub index_register: u16,
    pub registers: Vec<u8>,
    pub quirks: Quirks,
}

impl Emulator {
    /// A well-formed machine has 4096 memory bytes, 16 registers and 16
    /// keypad slots.
    pub open spec fn wf(self) -> bool {
        &&& self.memory@.len() == 4096
        &&& self.registers@.len() == 16
        &&& self.keypad@.len() == 16
    }
}

/// The memory contents are the same in both states.
pub open spec fn eq_memory(a: Emulator, b: Emulator) -> bool {
    b.memory@ == a.memory@
}

/// The sixteen registers are the same in both states.
pub open spec fn eq_registers(a: Emulator, b: Emulator) -> bool {
    b.registers@ == a.registers@
}

/// The program counter is the same in both states.
pub open spec fn eq_pc(a: Emulator, b: Emulator) -> bool {
    b.program_counter == a.program_counter
}

/// The index register is the same in both states.
pub open spec fn eq_index(a: Emulator, b: Emulator) -> bool {
    b.index_register == a.index_register
}

/// The call stack is the same in both states.
pub open spec fn eq_stack(a: Emulator, b: Emulator) -> bool {
    b.stack@ == a.stack@
}

/// Both timers are the same in both states.
pub open spec fn eq_timers(a: Emulator, b: Emulator) -> bool {
    b.delay_timer == a.delay_timer && b.sound_timer == a.sound_timer
}

/// The keypad snapshot, including the pending key transition, is the
/// same in both states.
pub open spec fn eq_keypad(a: Emulator, b: Emulator) -> bool {
    b.keypad@ == a.keypad@ && b.newly_pressed == a.newly_pressed
}

/// The quirk configuration is the same in both states.
pub open spec fn eq_quirks(a: Emulator, b: Emulator) -> bool {
    b.quirks == a.quirks
}

/// Nothing about the machine differs between the two states.
pub open spec fn eq_machine(a: Emulator, b: Emulator) -> bool {
    &&& eq_memory(a, b)
    &&& eq_registers(a, b)
    &&& eq_pc(a, b)
    &&& eq_index(a, b)
    &&& eq_stack(a, b)
    &&& eq_timers(a, b)
    &&& eq_keypad(a, b)
    &&& eq_quirks(a, b)
}

/// Everything but the program counter is the same in both states.
pub open spec fn eq_except_pc(a: Emulator, b: Emulator) -> bool {
    &&& eq_memory(a, b)
    &&& eq_registers(a, b)
    &&& eq_index(a, b)
    &&& eq_stack(a, b)
    &&& eq_timers(a, b)
    &&& eq_keypad(a, b)
    &&& eq_quirks(a, b)
}

/// Everything but the registers is the same in both states.
pub open spec fn eq_except_regs(a: Emulator, b: Emulator) -> bool {
    &&& eq_memory(a, b)
    &&& eq_pc(a, b)
    &&& eq_index(a, b)
    &&& eq_stack(a, b)
    &&& eq_timers(a, b)
    &&& eq_keypad(a, b)
    &&& eq_quirks(a, b)
}

/// Everything but the index register is the same in both states.
pub open spec fn eq_except_index(a: Emulator, b: Emulator) -> bool {
    &&& eq_memory(a, b)
    &&& eq_registers(a, b)
    &&& eq_pc(a, b)
    &&& eq_stack(a, b)
    &&& eq_timers(a, b)
    &&& eq_keypad(a, b)
    &&& eq_quirks(a, b)
}

/// Everything but the program counter and the call stack is the same in
/// both states.
pub open spec fn eq_except_pc_stack(a: Emulator, b: Emulator) -> bool {
    &&& eq_memory(a, b)
    &&& eq_registers(a, b)
    &&& eq_index(a, b)
    &&& eq_timers(a, b)
    &&& eq_keypad(a, b)
    &&& eq_quirks(a, b)
}

/// Everything but the registers and the index register is the same in
/// both states.
pub open spec fn eq_except_regs_index(a: Emulator, b: Emulator) -> bool {
    &&& eq_memory(a, b)
    &&& eq_pc(a, b)
    &&& eq_stack(a, b)
    &&& eq_timers(a, b)
    &&& eq_keypad(a, b)
    &&& eq_quirks(a, b)
}

/// Everything but the two timers is the same in both states.
pub open spec fn eq_except_timers(a: Emulator, b: Emulator) -> bool {
    &&& eq_memory(a, b)
    &&& eq_registers(a, b)
    &&& eq_pc(a, b)
    &&& eq_index(a, b)
    &&& eq_stack(a, b)
    &&& eq_keypad(a, b)
    &&& eq_quirks(a, b)
}

/// Everything but the memory is the same in both states.
pub open spec fn eq_except_memory(a: Emulator, b: Emulator) -> bool {
    &&& eq_registers(a, b)
    &&& eq_pc(a, b)
    &&& eq_index(a, b)
    &&& eq_stack(a, b)
    &&& eq_timers(a, b)
    &&& eq_keypad(a, b)
    &&& eq_quirks(a, b)
}

/// Everything but the memory and the index register is the same in both
/// states.
pub open spec fn eq_except_memory_index(a: Emulator, b: Emulator) -> bool {
    &&& eq_registers(a, b)
    &&& eq_pc(a, b)
    &&& eq_stack(a, b)
    &&& eq_timers(a, b)
    &&& eq_keypad(a, b)
    &&& eq_quirks(a, b)
}

/// `1NNN`: the program counter becomes `address`.
pub open spec fn rel_jump(pre: Emulator, post: Emulator, address: usize) -> bool {
    &&& post.program_counter == address
    &&& eq_except_pc(pre, post)
}

/// `00EE`: with a non-empty stack, the program counter becomes the top
/// of the stack and the top is popped; with an empty stack, a stack
/// underflow is reported and nothing changes.
pub open spec fn rel_stack_return(
    pre: Emulator,
    post: Emulator,
    r: Result<(), Chip8Error>,
) -> bool {
    if pre.stack@.len() == 0 {
        &&& r == Err::<(), Chip8Error>(Chip8Error::StackUnderflow)
        &&& eq_machine(pre, post)
    } else {
        &&& r == Ok::<(), Chip8Error>(())
        &&& post.program_counter == pre.stack@.last()
        &&& post.stack@ == pre.stack@.drop_last()
        &&& eq_except_pc_stack(pre, post)
    }
}

/// `2NNN`: the current program counter is pushed on the stack and the
/// program counter becomes `address`.
pub open spec fn rel_call_subroutine(pre: Emulator, post: Emulator, address: usize) -> bool {
    &&& post.stack@ == pre.stack@.push(pre.program_counter)
    &&& post.program_counter == address
    &&& eq_except_pc_stack(pre, post)
}

/// `3XNN`: the program counter advances by 2 exactly when `VX == NN`.
pub open spec fn rel_skip_if_register_equals_value(
    pre: Emulator,
    post: Emulator,
    register_x: usize,
    value: u8,
) -> bool {
    &&& post.program_counter == if pre.registers@[register_x as int] == value {
        pre.program_counter + 2
    } else {
        pre.program_counter as int
    }
    &&& eq_except_pc(pre, post)
}

/// `4XNN`: the program counter advances by 2 exactly when `VX != NN`.
pub open spec fn rel_skip_if_register_not_equal_to_value(
    pre: Emulator,
    post: Emulator,
    register_x: usize,
    value: u8,
) -> bool {
    &&& post.program_counter == if pre.registers@[register_x as int] != value {
        pre.program_counter + 2
    } else {
        pre.program_counter as int
    }
    &&& eq_except_pc(pre, post)
}

/// `5XY0`: the program counter advances by 2 exactly when `VX == VY`.
pub open spec fn rel_skip_if_registers_equal(
    pre: Emulator,
    post: Emulator,
    register_x: usize,
    register_y: usize,
) -> bool {
    &&& post.program_counter == if pre.registers@[register_x as int] == pre.registers@[
        register_y as int
    ] {
        pre.program_counter + 2
    } else {
        pre.program_counter as int
    }
    &&& eq_except_pc(pre, post)
}

/// `9XY0`: the program counter advances by 2 exactly when `VX != VY`.
pub open spec fn rel_skip_if_registers_not_equal(
    pre: Emulator,
    post: Emulator,
    register_x: usize,
    register_y: usize,
) -> bool {
    &&& post.program_counter == if pre.registers@[register_x as int] != pre.registers@[
        register_y as int
    ] {
        pre.program_counter + 2
    } else {
        pre.program_counter as int
    }
    &&& eq_except_pc(pre, post)
}

/// `6XNN`: `VX` becomes `value`.
pub open spec fn rel_set_register(
    pre: Emulator,
    post: Emulator,
    register_x: usize,
    value: u8,
) -> bool {
    &&& post.registers@ == pre.registers@.update(register_x as int, value)
    &&& eq_except_regs(pre, post)
}

/// `7XNN`: `VX` becomes `VX + addend`, wrapping modulo 256 and setting
/// no flag.
pub open spec fn rel_add_to_register(
    pre: Emulator,
    post: Emulator,
    register_x: usize,
    addend: u8,
) -> bool {
    &&& post.registers@ == pre.registers@.update(
        register_x as int,
        ((pre.registers@[register_x as int] + addend) % 256) as u8,
    )
    &&& eq_except_regs(pre, post)
}

/// `8XY0`: `VX` becomes `VY`.
pub open spec fn rel_set_register_to_other(
    pre: Emulator,
    post: Emulator,
    register_x: usize,
    register_y: usize,
) -> bool {
    &&& post.registers@ == pre.registers@.update(
        register_x as int,
        pre.registers@[register_y as int],
    )
    &&& eq_except_regs(pre, post)
}

/// `8XY1`: `VX` becomes `VX | VY`.
pub open spec fn rel_binary_or(
    pre: Emulator,
    post: Emulator,
    register_x: usize,
    register_y: usize,
) -> bool {
    &&& post.registers@ == pre.registers@.update(
        register_x as int,
        pre.registers@[register_x as int] | pre.registers@[register_y as int],
    )
    &&& eq_except_regs(pre, post)
}

/// `8XY2`: `VX` becomes `VX & VY`.
pub open spec fn rel_binary_and(
    pre: Emulator,
    post: Emulator,
    register_x: usize,
    register_y: usize,
) -> bool {
    &&& post.registers@ == pre.registers@.update(
        register_x as int,
        pre.registers@[register_x as int] & pre.registers@[register_y as int],
    )
    &&& eq_except_regs(pre, post)
}

/// `8XY3`: `VX` becomes `VX ^ VY`.
pub open spec fn rel_binary_xor(
    pre: Emulator,
    post: Emulator,
    register_x: usize,
    register_y: usize,
) -> bool {
    &&& post.registers@ == pre.registers@.update(
        register_x as int,
        pre.registers@[register_x as int] ^ pre.registers@[register_y as int],
    )
    &&& eq_except_regs(pre, post)
}

/// `8XY4`: `VF` becomes 1 exactly when the mathematical sum `VX + VY`
/// exceeds 255, else 0, and `VX` becomes that sum modulo 256. The result
/// is written after the flag, so with `X = F` the result wins.
pub open spec fn rel_add_registers(
    pre: Emulator,
    post: Emulator,
    register_x: usize,
    register_y: usize,
) -> bool {
    let sum = pre.registers@[register_x as int] + pre.registers@[register_y as int];
    let flag: u8 = if sum > 255 {
        1
    } else {
        0
    };
    &&& post.registers@ == pre.registers@.update(15, flag).update(
        register_x as int,
        (sum % 256) as u8,
    )
    &&& eq_except_regs(pre, post)
}

/// `8XY5`/`8XY7`: `VF` becomes 1 exactly when the left register is at
/// least the right one (no borrow), else 0, and the left register
/// becomes their difference modulo 256. The result is written after the
/// flag, so with a left register of `F` the result wins.
pub open spec fn rel_subtract_registers(
    pre: Emulator,
    post: Emulator,
    left_register: usize,
    right_register: usize,
) -> bool {
    let l = pre.registers@[left_register as int];
    let r_val = pre.registers@[right_register as int];
    let flag: u8 = if l >= r_val {
        1
    } else {
        0
    };
    &&& post.registers@ == pre.registers@.update(15, flag).update(
        left_register as int,
        ((l - r_val) % 256) as u8,
    )
    &&& eq_except_regs(pre, post)
}

/// `8XY6`: with the `shift_uses_vy` quirk the source is `VY`, else `VX`;
/// `VF` becomes the source's low bit and `VX` the source shifted right
/// by one. The updates happen in that order, which matters when `X = F`.
pub open spec fn rel_right_shift_on_register(
    pre: Emulator,
    post: Emulator,
    register_x: usize,
    register_y: usize,
) -> bool {
    let src = if pre.quirks.shift_uses_vy {
        pre.registers@[register_y as int]
    } else {
        pre.registers@[register_x as int]
    };
    let r1 = pre.registers@.update(register_x as int, src);
    let r2 = r1.update(15, (r1[register_x as int] % 2) as u8);
    let r3 = r2.update(register_x as int, (r2[register_x as int] / 2) as u8);
    &&& post.registers@ == r3
    &&& eq_except_regs(pre, post)
}

/// `8XYE`: mirror of `8XY6` for the left shift; `VF` becomes the
/// source's high bit and `VX` the source shifted left by one, modulo
/// 256.
pub open spec fn rel_left_shift_on_register(
    pre: Emulator,
    post: Emulator,
    register_x: usize,
    register_y: usize,
) -> bool {
    let src = if pre.quirks.shift_uses_vy {
        pre.registers@[register_y as int]
    } else {
        pre.registers@[register_x as int]
    };
    let r1 = pre.registers@.update(register_x as int, src);
    let r2 = r1.update(15, (r1[register_x as int] / 128) as u8);
    let r3 = r2.update(register_x as int, ((r2[register_x as int] * 2) % 256) as u8);
    &&& post.registers@ == r3
    &&& eq_except_regs(pre, post)
}

/// `ANNN`: the index register becomes `address`.
pub open spec fn rel_set_index_register(pre: Emulator, post: Emulator, address: usize) -> bool {
    &&& post.index_register == address
    &&& eq_except_index(pre, post)
}

/// `BNNN`: the program counter becomes `address` plus the value of the
/// given register, or of `V0` when no register is given.
pub open spec fn rel_jump_with_offset(
    pre: Emulator,
    post: Emulator,
    register_x: Option<usize>,
    address: usize,
) -> bool {
    let reg = match register_x {
        Some(r) => r as int,
        None => 0,
    };
    &&& post.program_counter == address + pre.registers@[reg]
    &&& eq_except_pc(pre, post)
}

/// `CXNN`: `VX` becomes some byte masked with `and_value`; which byte
/// came back from the random source is not specified.
pub open spec fn rel_random(
    pre: Emulator,
    post: Emulator,
    register_x: usize,
    and_value: u8,
) -> bool {
    &&& exists|b: u8|
        post.registers@ == pre.registers@.update(register_x as int, #[trigger] (b & and_value))
    &&& eq_except_regs(pre, post)
}

/// `EX9E`/`EXA1`: the program counter advances by 2 exactly when the
/// key selected by the low nibble of `VX` matches `press_status`
/// (`true` for pressed).
pub open spec fn rel_skip_if_press_status(
    pre: Emulator,
    post: Emulator,
    register_x: usize,
    press_status: bool,
) -> bool {
    let key = pre.registers@[register_x as int] % 16;
    &&& post.program_counter == if pre.keypad@[key as int] == press_status {
        pre.program_counter + 2
    } else {
        pre.program_counter as int
    }
    &&& eq_except_pc(pre, post)
}

/// `FX07`: `VX` becomes the delay timer's counter.
pub open spec fn rel_set_register_to_delay_timer(
    pre: Emulator,
    post: Emulator,
    register_x: usize,
) -> bool {
    &&& post.registers@ == pre.registers@.update(register_x as int, pre.delay_timer.counter)
    &&& eq_except_regs(pre, post)
}

/// `FX15`: the delay timer's counter becomes `VX`.
pub open spec fn rel_set_delay_timer_to_register(
    pre: Emulator,
    post: Emulator,
    register_x: usize,
) -> bool {
    &&& post.delay_timer.counter == pre.registers@[register_x as int]
    &&& post.sound_timer == pre.sound_timer
    &&& eq_except_timers(pre, post)
}

/// `FX18`: the sound timer's counter becomes `VX`.
pub open spec fn rel_set_sound_timer_to_register(
    pre: Emulator,
    post: Emulator,
    register_x: usize,
) -> bool {
    &&& post.sound_timer.counter == pre.registers@[register_x as int]
    &&& post.delay_timer == pre.delay_timer
    &&& eq_except_timers(pre, post)
}

/// `FX1E`: the index register becomes `I + VX` modulo 0x10000; when the
/// `index_overflow_flag` quirk is set and the sum overflows, `VF`
/// becomes 1 (and is otherwise left alone).
pub open spec fn rel_add_to_index(pre: Emulator, post: Emulator, register_x: usize) -> bool {
    let sum = pre.index_register + pre.registers@[register_x as int];
    let flagged = pre.quirks.index_overflow_flag && sum > 0xFFFF;
    &&& post.index_register == (sum % 0x10000) as u16
    &&& post.registers@ == if flagged {
        pre.registers@.update(15, 1u8)
    } else {
        pre.registers@
    }
    &&& eq_except_regs_index(pre, post)
}

/// `FX0A`: with a key value in hand, `VX` becomes that value and
/// execution proceeds; with none, the program counter rewinds by 2 so
/// the instruction is re-presented next cycle.
pub open spec fn rel_get_key(
    pre: Emulator,
    post: Emulator,
    register_x: usize,
    new_key_pressed: Option<u8>,
) -> bool {
    match new_key_pressed {
        Some(key) => {
            &&& post.registers@ == pre.registers@.update(register_x as int, key)
            &&& eq_except_regs(pre, post)
        },
        None => {
            &&& post.program_counter == pre.program_counter - 2
            &&& eq_except_pc(pre, post)
        },
    }
}

/// `FX0A` as dispatched: the pending key transition of the snapshot is
/// consumed; a pending key goes into `VX`, no pending key rewinds the
/// program counter by 2.
pub open spec fn rel_get_key_dispatch(pre: Emulator, post: Emulator, register_x: usize) -> bool {
    &&& post.newly_pressed is None
    &&& post.keypad@ == pre.keypad@
    &&& eq_memory(pre, post)
    &&& eq_index(pre, post)
    &&& eq_stack(pre, post)
    &&& eq_timers(pre, post)
    &&& eq_quirks(pre, post)
    &&& match pre.newly_pressed {
        Some(key) => {
            &&& post.registers@ == pre.registers@.update(register_x as int, key)
            &&& post.program_counter == pre.program_counter
        },
        None => {
            &&& post.program_counter == pre.program_counter - 2
            &&& post.registers@ == pre.registers@
        },
    }
}

/// `FX29`: the index register becomes the font address of the hex digit
/// in the low nibble of `VX`: the font base plus five bytes per glyph.
pub open spec fn rel_set_index_register_to_font_character(
    pre: Emulator,
    post: Emulator,
    register_x: usize,
) -> bool {
    &&& post.index_register == FONT_MEMORY_START + 5 * (pre.registers@[register_x as int] % 16)
    &&& eq_except_index(pre, post)
}

/// `FX33`: the three decimal digits of `VX` (hundreds, tens, ones) are
/// stored at `I`, `I + 1`, `I + 2`; writing past address 0xFFF is a
/// memory overrun that changes nothing.
pub open spec fn rel_binary_coded_decimal_conversion(
    pre: Emulator,
    post: Emulator,
    register_x: usize,
    r: Result<(), Chip8Error>,
) -> bool {
    let i = pre.index_register as int;
    let v = pre.registers@[register_x as int] as int;
    if i + 3 > 4096 {
        &&& r == Err::<(), Chip8Error>(Chip8Error::MemoryOverrun)
        &&& eq_machine(pre, post)
    } else {
        &&& r == Ok::<(), Chip8Error>(())
        &&& post.memory@ == pre.memory@.update(i, (v / 100) as u8).update(
            i + 1,
            ((v / 10) % 10) as u8,
        ).update(i + 2, (v % 10) as u8)
        &&& eq_except_memory(pre, post)
    }
}

/// `FX55`: registers `V0..VX` inclusive are stored at `I..I + X`; with
/// the `index_autoincrement` quirk the index register then becomes
/// `I + X + 1`. Writing past address 0xFFF is a memory overrun that
/// changes nothing.
pub open spec fn rel_store_registers_to_memory(
    pre: Emulator,
    post: Emulator,
    register_x: usize,
    r: Result<(), Chip8Error>,
) -> bool {
    let i = pre.index_register as int;
    if i + register_x + 1 > 4096 {
        &&& r == Err::<(), Chip8Error>(Chip8Error::MemoryOverrun)
        &&& eq_machine(pre, post)
    } else {
        &&& r == Ok::<(), Chip8Error>(())
        &&& post.memory@.len() == pre.memory@.len()
        &&& forall|k: int|
            0 <= k <= register_x ==> post.memory@[i + k] == pre.registers@[k]
        &&& forall|j: int|
            0 <= j < pre.memory@.len() && !(i <= j <= i + register_x) ==> post.memory@[j]
                == pre.memory@[j]
        &&& post.index_register == if pre.quirks.index_autoincrement {
            i + register_x + 1
        } else {
            pre.index_register as int
        }
        &&& eq_except_memory_index(pre, post)
    }
}

/// `FX65`: registers `V0..VX` inclusive are loaded from `I..I + X`,
/// the rest of the registers staying put; with the `index_autoincrement`
/// quirk the index register then becomes `I + X + 1`. Reading past
/// address 0xFFF is a memory overrun that changes nothing.
pub open spec fn rel_store_memory_to_registers(
    pre: Emulator,
    post: Emulator,
    register_x: usize,
    r: Result<(), Chip8Error>,
) -> bool {
    let i = pre.index_register as int;
    if i + register_x + 1 > 4096 {
        &&& r == Err::<(), Chip8Error>(Chip8Error::MemoryOverrun)
        &&& eq_machine(pre, post)
    } else {
        &&& r == Ok::<(), Chip8Error>(())
        &&& post.registers@.len() == pre.registers@.len()
        &&& forall|k: int|
            0 <= k <= register_x ==> post.registers@[k] == pre.memory@[i + k]
        &&& forall|j: int|
            register_x < j < 16 ==> post.registers@[j] == pre.registers@[j]
        &&& post.index_register == if pre.quirks.index_autoincrement {
            i + register_x + 1
        } else {
            pre.index_register as int
        }
        &&& eq_except_regs_index(pre, post)
    }
}

/// Whether bit `j` of a sprite row byte is set, counted from the most
/// significant bit, the order in which a row is drawn left to right.
pub open spec fn sprite_row_bit(b: u8, j: int) -> bool
    recommends
        0 <= j < 8,
{
    (b >> ((7 - j) as u8)) & 1 == 1
}

/// Whether the sprite of `rows` rows read from memory at `i0`, drawn
/// with its origin at `(x0, y0)`, puts a set bit on the cell `(cx, cy)`.
/// A bit past column 63 lands nowhere: drawing clips at the right edge.
pub open spec fn sprite_covers(
    mem: Seq<u8>,
    i0: int,
    x0: int,
    y0: int,
    rows: int,
    cx: int,
    cy: int,
) -> bool {
    &&& y0 <= cy < y0 + rows
    &&& x0 <= cx < x0 + 8
    &&& cx < 64
    &&& sprite_row_bit(mem[i0 + (cy - y0)], cx - x0)
}

/// Whether drawing the sprite on the screen `scr0` turns some lit cell
/// off: the collision the draw instruction reports in `VF`.
pub open spec fn draw_collides(
    mem: Seq<u8>,
    i0: int,
    x0: int,
    y0: int,
    rows: int,
    scr0: Seq<bool>,
) -> bool {
    exists|p: int|
        0 <= p < 2048 && #[trigger] scr0[p] && sprite_covers(mem, i0, x0, y0, rows, p % 64, p / 64)
}

/// `DXYN`: the sprite at `I` is XOR-drawn with its origin at
/// `(VX mod 64, VY mod 32)`, clipping at the right and bottom edges;
/// `VF` becomes 1 exactly when a lit cell is turned off. Reading sprite
/// rows past address 0xFFF is a memory overrun that changes nothing.
pub open spec fn rel_display(
    pre: Emulator,
    post: Emulator,
    scr0: Seq<bool>,
    scr1: Seq<bool>,
    register_x: usize,
    register_y: usize,
    rows: usize,
    r: Result<(), Chip8Error>,
) -> bool {
    let x0 = pre.registers@[register_x as int] as int % 64;
    let y0 = pre.registers@[register_y as int] as int % 32;
    let eff_rows = if rows > 32 - y0 {
        32 - y0
    } else {
        rows as int
    };
    let i0 = pre.index_register as int;
    if eff_rows > 0 && i0 + eff_rows > 4096 {
        &&& r == Err::<(), Chip8Error>(Chip8Error::MemoryOverrun)
        &&& eq_machine(pre, post)
        &&& scr1 == scr0
    } else {
        &&& r == Ok::<(), Chip8Error>(())
        &&& scr1.len() == 2048
        &&& forall|p: int|
            0 <= p < 2048 ==> #[trigger] scr1[p] == (scr0[p] != sprite_covers(
                pre.memory@,
                i0,
                x0,
                y0,
                eff_rows,
                p % 64,
                p / 64,
            ))
        &&& post.registers@ == pre.registers@.update(
            15,
            if draw_collides(pre.memory@, i0, x0, y0, eff_rows, scr0) {
                1u8
            } else {
                0u8
            },
        )
        &&& eq_except_regs(pre, post)
    }
}

impl Emulator {
    /// Builds the machine in its power-on state: the font loaded at its
    /// fixed region, everything else zeroed, execution set to start at
    /// 0x200. A machine with COSMAC VIP instructions uses the original
    /// shift, jump-with-offset and register-store conventions; one
    /// without uses the later CHIP-48/SUPER-CHIP conventions.
    pub fn new(has_cosmac_vip_instructions: bool) -> (r: Emulator)
        ensures
            r.wf(),
            r.quirks == (Quirks {
                shift_uses_vy: has_cosmac_vip_instructions,
                jump_uses_vx: !has_cosmac_vip_instructions,
                index_autoincrement: has_cosmac_vip_instructions,
                index_overflow_flag: true,
            }),
            fresh_machine(r),
    {
        Emulator::with_quirks(
            Quirks {
                shift_uses_vy: has_cosmac_vip_instructions,
                jump_uses_vx: !has_cosmac_vip_instructions,
                index_autoincrement: has_cosmac_vip_instructions,
                index_overflow_flag: true,
            },
        )
    }

    /// Builds the machine in its power-on state with the given quirk
    /// configuration.
    pub fn with_quirks(quirks: Quirks) -> (r: Emulator)
        ensures
            r.wf(),
            r.quirks == quirks,
            fresh_machine(r),
    {
        let mut memory: Vec<u8> = Vec::new();
        let mut a: usize = 0;
        while a < 4096
            invariant
                a <= 4096,
                memory@.len() == a,
                forall|j: int| 0 <= j < a ==> memory@[j] == 0,
            decreases 4096 - a,
        {
            memory.push(0);
            a = a + 1;
        }
        load_font(&mut memory);
        let mut registers: Vec<u8> = Vec::new();
        let mut i: usize = 0;
        while i < 16
            invariant
                i <= 16,
                registers@.len() == i,
                forall|j: int| 0 <= j < i ==> registers@[j] == 0,
            decreases 16 - i,
        {
            registers.push(0);
            i = i + 1;
        }
        let mut keypad: Vec<bool> = Vec::new();
        let mut k: usize = 0;
        while k < 16
            invariant
                k <= 16,
                keypad@.len() == k,
                forall|j: int| 0 <= j < k ==> !keypad@[j],
            decreases 16 - k,
        {
            keypad.push(false);
            k = k + 1;
        }
        Emulator {
            memory,
            stack: Stack::new(),
            delay_timer: Timer::new(),
            sound_timer: Timer::new(),
            keypad,
            newly_pressed: None,
            program_counter: PROGRAM_START,
            index_register: 0,
            registers,
            quirks,
        }
    }

    /// Copies a ROM into memory starting at 0x200. A ROM longer than the
    /// program-owned region is refused before anything is written.
    pub fn load_memory_from_rom(&mut self, rom: &Vec<u8>) -> (r: Result<(), Chip8Error>)
        requires
            old(self).wf(),
        ensures
            final(self).wf(),
            rom@.len() > 4096 - 0x200 ==> r == Err::<(), Chip8Error>(Chip8Error::RomTooLarge)
                && eq_machine(*old(self), *final(self)),
            rom@.len() <= 4096 - 0x200 ==> {
                &&& r == Ok::<(), Chip8Error>(())
                &&& forall|k: int|
                    0 <= k < rom@.len() ==> final(self).memory@[0x200 + k] == rom@[k]
                &&& forall|j: int|
                    0 <= j < 4096 && !(0x200 <= j < 0x200 + rom@.len())
                        ==> final(self).memory@[j] == old(self).memory@[j]
                &&& eq_except_memory(*old(self), *final(self))
            },
    {
        if rom.len() > 4096 - 0x200 {
            return Err(Chip8Error::RomTooLarge);
        }
        let ghost pre = *old(self);
        let mut k: usize = 0;
        while k < rom.len()
            invariant
                self.wf(),
                rom@.len() <= 4096 - 0x200,
                k <= rom@.len(),
                forall|t: int| 0 <= t < k ==> self.memory@[0x200 + t] == rom@[t],
                forall|j: int|
                    0 <= j < 4096 && !(0x200 <= j < 0x200 + k) ==> self.memory@[j]
                        == pre.memory@[j],
                eq_except_memory(pre, *self),
            decreases rom@.len() - k,
        {
            let b = rom[k];
            self.memory.set(0x200 + k, b);
            k = k + 1;
        }
        Ok(())
    }

    /// `1NNN`: sets the program counter to the provided address.
    pub fn jump(&mut self, address: usize)
        requires
            old(self).wf(),
        ensures
            final(self).wf(),
            rel_jump(*old(self), *final(self), address),
    {
        self.program_counter = address;
    }

    /// `00EE`: sets the program counter to the top of the stack and pops
    /// it; reports a stack underflow, changing nothing, when the stack is
    /// empty.
    pub fn stack_return(&mut self) -> (r: Result<(), Chip8Error>)
        requires
            old(self).wf(),
        ensures
            final(self).wf(),
            rel_stack_return(*old(self), *final(self), r),
    {
        let top = match self.stack.top() {
            None => {
                return Err(Chip8Error::StackUnderflow);
            },
            Some(t) => *t,
        };
        self.program_counter = top;
        self.stack.pop();
        Ok(())
    }

    /// `2NNN`: pushes the current program counter on the stack and sets
    /// the program counter to the provided address.
    pub fn call_subroutine(&mut self, address: usize)
        requires
            old(self).wf(),
        ensures
            final(self).wf(),
            rel_call_subroutine(*old(self), *final(self), address),
    {
        let pc = self.program_counter;
        self.stack.push(pc);
        self.program_counter = address;
    }

    /// `3XNN`: skips the next instruction if register X equals the
    /// provided value.
    pub fn skip_if_register_equals_value(&mut self, register_x: usize, value: u8)
        requires
            old(self).wf(),
            register_x < 16,
            old(self).program_counter + 2 <= usize::MAX,
        ensures
            final(self).wf(),
            rel_skip_if_register_equals_value(*old(self), *final(self), register_x, value),
    {
        if self.registers[register_x] == value {
            self.program_counter = self.program_counter + 2;
        }
    }

    /// `4XNN`: skips the next instruction if register X does not equal
    /// the provided value.
    pub fn skip_if_register_not_equal_to_value(&mut self, register_x: usize, value: u8)
        requires
            old(self).wf(),
            register_x < 16,
            old(self).program_counter + 2 <= usize::MAX,
        ensures
            final(self).wf(),
            rel_skip_if_register_not_equal_to_value(*old(self), *final(self), register_x, value),
    {
        if self.registers[register_x] != value {
            self.program_counter = self.program_counter + 2;
        }
    }

    /// `5XY0`: skips the next instruction if registers X and Y are equal.
    pub fn skip_if_registers_equal(&mut self, register_x: usize, register_y: usize)
        requires
            old(self).wf(),
            register_x < 16,
            register_y < 16,
            old(self).program_counter + 2 <= usize::MAX,
        ensures
            final(self).wf(),
            rel_skip_if_registers_equal(*old(self), *final(self), register_x, register_y),
    {
        if self.registers[register_x] == self.registers[register_y] {
            self.program_counter = self.program_counter + 2;
        }
    }

    /// `9XY0`: skips the next instruction if registers X and Y are not
    /// equal.
    pub fn skip_if_registers_not_equal(&mut self, register_x: usize, register_y: usize)
        requires
            old(self).wf(),
            register_x < 16,
            register_y < 16,
            old(self).program_counter + 2 <= usize::MAX,
        ensures
            final(self).wf(),
            rel_skip_if_registers_not_equal(*old(self), *final(self), register_x, register_y),
    {
        if self.registers[register_x] != self.registers[register_y] {
            self.program_counter = self.program_counter + 2;
        }
    }

    /// `6XNN`: sets register X to the provided value.
    pub fn set_register(&mut self, register_x: usize, value: u8)
        requires
            old(self).wf(),
            register_x < 16,
        ensures
            final(self).wf(),
            rel_set_register(*old(self), *final(self), register_x, value),
    {
        self.registers.set(register_x, value);
    }

    /// `7XNN`: adds the provided addend to register X, wrapping modulo
    /// 256 without touching the flag register.
    pub fn add_to_register(&mut self, register_x: usize, addend: u8)
        requires
            old(self).wf(),
            register_x < 16,
        ensures
            final(self).wf(),
            rel_add_to_register(*old(self), *final(self), register_x, addend),
    {
        let sum: u16 = self.registers[register_x] as u16 + addend as u16;
        self.registers.set(register_x, (sum % 256) as u8);
    }

    /// `8XY0`: sets register X to register Y.
    pub fn set_register_to_other(&mut self, register_x: usize, register_y: usize)
        requires
            old(self).wf(),
            register_x < 16,
            register_y < 16,
        ensures
            final(self).wf(),
            rel_set_register_to_other(*old(self), *final(self), register_x, register_y),
    {
        let v = self.registers[register_y];
        self.registers.set(register_x, v);
    }

    /// `8XY1`: sets register X to the bitwise OR of registers X and Y.
    pub fn binary_or(&mut self, register_x: usize, register_y: usize)
        requires
            old(self).wf(),
            register_x < 16,
            register_y < 16,
        ensures
            final(self).wf(),
            rel_binary_or(*old(self), *final(self), register_x, register_y),
    {
        let v = self.registers[register_x] | self.registers[register_y];
        self.registers.set(register_x, v);
    }

    /// `8XY2`: sets register X to the bitwise AND of registers X and Y.
    pub fn binary_and(&mut self, register_x: usize, register_y: usize)
        requires
            old(self).wf(),
            register_x < 16,
            register_y < 16,
        ensures
            final(self).wf(),
            rel_binary_and(*old(self), *final(self), register_x, register_y),
    {
        let v = self.registers[register_x] & self.registers[register_y];
        self.registers.set(register_x, v);
    }

    /// `8XY3`: sets register X to the bitwise XOR of registers X and Y.
    pub fn binary_xor(&mut self, register_x: usize, register_y: usize)
        requires
            old(self).wf(),
            register_x < 16,
            register_y < 16,
        ensures
            final(self).wf(),
            rel_binary_xor(*old(self), *final(self), register_x, register_y),
    {
        let v = self.registers[register_x] ^ self.registers[register_y];
        self.registers.set(register_x, v);
    }

    /// `8XY4`: sets register X to the sum of registers X and Y, wrapping
    /// modulo 256; register F becomes 1 exactly when the sum exceeds
    /// 255, else 0.
    pub fn add_registers(&mut self, register_x: usize, register_y: usize)
        requires
            old(self).wf(),
            register_x < 16,
            register_y < 16,
        ensures
            final(self).wf(),
            rel_add_registers(*old(self), *final(self), register_x, register_y),
    {
        let sum: u16 = self.registers[register_x] as u16 + self.registers[register_y] as u16;
        let flag: u8 = if sum > 255 {
            1
        } else {
            0
        };
        self.registers.set(15, flag);
        self.registers.set(register_x, (sum % 256) as u8);
    }

    /// `8XY5`/`8XY7`: subtracts the right register from the left one,
    /// wrapping modulo 256; register F becomes 1 exactly when no borrow
    /// was needed (left at least right), else 0.
    pub fn subtract_registers(&mut self, left_register: usize, right_register: usize)
        requires
            old(self).wf(),
            left_register < 16,
            right_register < 16,
        ensures
            final(self).wf(),
            rel_subtract_registers(*old(self), *final(self), left_register, right_register),
    {
        let l = self.registers[left_register];
        let r_val = self.registers[right_register];
        let flag: u8 = if l >= r_val {
            1
        } else {
            0
        };
        let diff: u8 = if l >= r_val {
            l - r_val
        } else {
            ((256 + l as u16) - r_val as u16) as u8
        };
        self.registers.set(15, flag);
        self.registers.set(left_register, diff);
    }

    /// `8XY6`: shifts the source register (register Y under the
    /// `shift_uses_vy` quirk, else register X) right by one bit into
    /// register X; register F becomes the bit shifted out.
    pub fn right_shift_on_register(&mut self, register_x: usize, register_y: usize)
        requires
            old(self).wf(),
            register_x < 16,
            register_y < 16,
        ensures
            final(self).wf(),
            rel_right_shift_on_register(*old(self), *final(self), register_x, register_y),
    {
        let src = if self.quirks.shift_uses_vy {
            self.registers[register_y]
        } else {
            self.registers[register_x]
        };
        self.registers.set(register_x, src);
        let low_bit = self.registers[register_x] % 2;
        self.registers.set(15, low_bit);
        let cur = self.registers[register_x];
        self.registers.set(register_x, cur / 2);
    }

    /// `8XYE`: shifts the source register (register Y under the
    /// `shift_uses_vy` quirk, else register X) left by one bit into
    /// register X, modulo 256; register F becomes the bit shifted out.
    pub fn left_shift_on_register(&mut self, register_x: usize, register_y: usize)
        requires
            old(self).wf(),
            register_x < 16,
            register_y < 16,
        ensures
            final(self).wf(),
            rel_left_shift_on_register(*old(self), *final(self), register_x, register_y),
    {
        let src = if self.quirks.shift_uses_vy {
            self.registers[register_y]
        } else {
            self.registers[register_x]
        };
        self.registers.set(register_x, src);
        let high_bit = self.registers[register_x] / 128;
        self.registers.set(15, high_bit);
        let cur = self.registers[register_x];
        self.registers.set(register_x, ((cur as u16 * 2) % 256) as u8);
    }

    /// `ANNN`: sets the index register to the provided address.
    pub fn set_index_register(&mut self, address: usize)
        requires
            old(self).wf(),
            address <= 0xFFFF,
        ensures
            final(self).wf(),
            rel_set_index_register(*old(self), *final(self), address),
    {
        self.index_register = address as u16;
    }

    /// `BNNN`: sets the program counter to the provided address plus the
    /// value of the given register, or of register 0 when none is given.
    pub fn jump_with_offset(&mut self, register_x: Option<usize>, address: usize)
        requires
            old(self).wf(),
            (register_x matches Some(r) ==> r < 16),
            address + 255 <= usize::MAX,
        ensures
            final(self).wf(),
            rel_jump_with_offset(*old(self), *final(self), register_x, address),
    {
        let register_to_use = match register_x {
            Some(register) => register,
            None => 0,
        };
        self.program_counter = address + self.registers[register_to_use] as usize;
    }

    /// `CXNN`: sets register X to a freshly drawn random byte masked
    /// with `and_value`; nothing is promised about which byte was drawn.
    pub fn random(&mut self, register_x: usize, and_value: u8)
        requires
            old(self).wf(),
            register_x < 16,
        ensures
            final(self).wf(),
            rel_random(*old(self), *final(self), register_x, and_value),
    {
        let b = random_byte();
        let masked = b & and_value;
        self.registers.set(register_x, masked);
        proof {
            assert(self.registers@ == old(self).registers@.update(
                register_x as int,
                b & and_value,
            ));
        }
    }

    /// `EX9E`/`EXA1`: skips the next instruction if the key selected by
    /// the low nibble of register X matches the given press status
    /// (`true` for pressed).
    pub fn skip_if_press_status(&mut self, register_x: usize, press_status: bool)
        requires
            old(self).wf(),
            register_x < 16,
            old(self).program_counter + 2 <= usize::MAX,
        ensures
            final(self).wf(),
            rel_skip_if_press_status(*old(self), *final(self), register_x, press_status),
    {
        let key = (self.registers[register_x] % 16) as usize;
        if self.keypad[key] == press_status {
            self.program_counter = self.program_counter + 2;
        }
    }

    /// `FX07`: sets register X to the current value of the delay timer.
    pub fn set_register_to_delay_timer(&mut self, register_x: usize)
        requires
            old(self).wf(),
            register_x < 16,
        ensures
            final(self).wf(),
            rel_set_register_to_delay_timer(*old(self), *final(self), register_x),
    {
        let v = self.delay_timer.counter;
        self.registers.set(register_x, v);
    }

    /// `FX15`: sets the delay timer to the value in register X.
    pub fn set_delay_timer_to_register(&mut self, register_x: usize)
        requires
            old(self).wf(),
            register_x < 16,
        ensures
            final(self).wf(),
            rel_set_delay_timer_to_register(*old(self), *final(self), register_x),
    {
        self.delay_timer.counter = self.registers[register_x];
    }

    /// `FX18`: sets the sound timer to the value in register X.
    pub fn set_sound_timer_to_register(&mut self, register_x: usize)
        requires
            old(self).wf(),
            register_x < 16,
        ensures
            final(self).wf(),
            rel_set_sound_timer_to_register(*old(self), *final(self), register_x),
    {
        self.sound_timer.counter = self.registers[register_x];
    }

    /// `FX1E`: adds register X to the index register, wrapping modulo
    /// 0x10000; under the `index_overflow_flag` quirk, register F
    /// becomes 1 when the sum overflows (and is otherwise left alone).
    pub fn add_to_index(&mut self, register_x: usize)
        requires
            old(self).wf(),
            register_x < 16,
        ensures
            final(self).wf(),
            rel_add_to_index(*old(self), *final(self), register_x),
    {
        let sum: u32 = self.index_register as u32 + self.registers[register_x] as u32;
        if self.quirks.index_overflow_flag && sum > 0xFFFF {
            self.registers.set(15, 1);
        }
        self.index_register = (sum % 0x10000) as u16;
    }

    /// `FX0A`: with a key value in hand puts it in register X and
    /// proceeds; with none, rewinds the program counter by 2 so the
    /// instruction is re-presented next cycle while timers keep running.
    pub fn get_key(&mut self, register_x: usize, new_key_pressed: Option<u8>)
        requires
            old(self).wf(),
            register_x < 16,
            (new_key_pressed is None ==> old(self).program_counter >= 2),
        ensures
            final(self).wf(),
            rel_get_key(*old(self), *final(self), register_x, new_key_pressed),
    {
        match new_key_pressed {
            Some(key) => {
                self.registers.set(register_x, key);
            },
            None => {
                self.program_counter = self.program_counter - 2;
            },
        }
    }

    /// `FX29`: sets the index register to the font address of the hex
    /// digit held in the low nibble of register X.
    pub fn set_index_register_to_font_character(&mut self, register_x: usize)
        requires
            old(self).wf(),
            register_x < 16,
        ensures
            final(self).wf(),
            rel_set_index_register_to_font_character(*old(self), *final(self), register_x),
    {
        let last_nibble = self.registers[register_x] % 16;
        self.index_register = (FONT_MEMORY_START as u16) + 5 * (last_nibble as u16);
    }

    /// `FX33`: decomposes register X into its three decimal digits and
    /// stores them at the index register onward; reports a memory
    /// overrun, changing nothing, when they would not fit below 0x1000.
    pub fn binary_coded_decimal_conversion(&mut self, register_x: usize) -> (r: Result<
        (),
        Chip8Error,
    >)
        requires
            old(self).wf(),
            register_x < 16,
        ensures
            final(self).wf(),
            rel_binary_coded_decimal_conversion(*old(self), *final(self), register_x, r),
    {
        let i = self.index_register as usize;
        if i + 3 > 4096 {
            return Err(Chip8Error::MemoryOverrun);
        }
        let v = self.registers[register_x];
        self.memory.set(i, v / 100);
        self.memory.set(i + 1, (v / 10) % 10);
        self.memory.set(i + 2, v % 10);
        Ok(())
    }

    /// `FX55`: stores registers 0 through X to memory starting at the
    /// index register, incrementing the index register past the block
    /// under the `index_autoincrement` quirk; reports a memory overrun,
    /// changing nothing, when the block would reach past 0xFFF.
    pub fn store_registers_to_memory(&mut self, register_x: usize) -> (r: Result<(), Chip8Error>)
        requires
            old(self).wf(),
            register_x < 16,
        ensures
            final(self).wf(),
            rel_store_registers_to_memory(*old(self), *final(self), register_x, r),
    {
        let i = self.index_register as usize;
        if i + register_x + 1 > 4096 {
            return Err(Chip8Error::MemoryOverrun);
        }
        let ghost pre = *old(self);
        let mut k: usize = 0;
        while k < register_x + 1
            invariant
                self.wf(),
                register_x < 16,
                k <= register_x + 1,
                i == pre.index_register,
                i + register_x + 1 <= 4096,
                forall|t: int| 0 <= t < k ==> self.memory@[i + t] == pre.registers@[t],
                forall|j: int|
                    0 <= j < 4096 && !(i <= j < i + k) ==> self.memory@[j] == pre.memory@[j],
                eq_except_memory(pre, *self),
            decreases register_x + 1 - k,
        {
            let v = self.registers[k];
            self.memory.set(i + k, v);
            k = k + 1;
        }
        if self.quirks.index_autoincrement {
            self.index_register = (i + register_x + 1) as u16;
        }
        Ok(())
    }

    /// `FX65`: loads registers 0 through X from memory starting at the
    /// index register, incrementing the index register past the block
    /// under the `index_autoincrement` quirk; reports a memory overrun,
    /// changing nothing, when the block would reach past 0xFFF.
    pub fn store_memory_to_registers(&mut self, register_x: usize) -> (r: Result<(), Chip8Error>)
        requires
            old(self).wf(),
            register_x < 16,
        ensures
            final(self).wf(),
            rel_store_memory_to_registers(*old(self), *final(self), register_x, r),
    {
        let i = self.index_register as usize;
        if i + register_x + 1 > 4096 {
            return Err(Chip8Error::MemoryOverrun);
        }
        let ghost pre = *old(self);
        let mut k: usize = 0;
        while k < register_x + 1
            invariant
                self.wf(),
                register_x < 16,
                k <= register_x + 1,
                i == pre.index_register,
                i + register_x + 1 <= 4096,
                forall|t: int| 0 <= t < k ==> self.registers@[t] == pre.memory@[i + t],
                forall|j: int| k <= j < 16 ==> self.registers@[j] == pre.registers@[j],
                eq_except_regs_index(pre, *self),
                self.index_register == pre.index_register,
            decreases register_x + 1 - k,
        {
            let v = self.memory[i + k];
            self.registers.set(k, v);
            k = k + 1;
        }
        if self.quirks.index_autoincrement {
            self.index_register = (i + register_x + 1) as u16;
        }
        Ok(())
    }
}

/// The part of the screen already visited while drawing: the sprite rows
/// before `row`, and within row `row` the columns before `col`.
pub open spec fn draw_processed(x0: int, y0: int, row: int, col: int, cx: int, cy: int) -> bool {
    (y0 <= cy < y0 + row) || (cy == y0 + row && x0 <= cx < x0 + col)
}

/// Whether a collision (a lit cell turned off) has happened within the
/// part of the screen already visited while drawing.
pub open spec fn partial_collides(
    mem: Seq<u8>,
    i0: int,
    x0: int,
    y0: int,
    rows: int,
    scr0: Seq<bool>,
    row: int,
    col: int,
) -> bool {
    exists|p: int|
        0 <= p < 2048 && #[trigger] scr0[p] && draw_processed(x0, y0, row, col, p % 64, p / 64)
            && sprite_covers(mem, i0, x0, y0, rows, p % 64, p / 64)
}

/// The screen while drawing: cells already visited hold the XOR of their
/// old value with the sprite bit that covers them; the rest still hold
/// their old value.
pub open spec fn draw_screen_inv(
    mem: Seq<u8>,
    i0: int,
    x0: int,
    y0: int,
    rows: int,
    scr0: Seq<bool>,
    scr: Seq<bool>,
    row: int,
    col: int,
) -> bool {
    forall|p: int|
        0 <= p < 2048 ==> #[trigger] scr[p] == (if draw_processed(x0, y0, row, col, p % 64, p
            / 64) {
            scr0[p] != sprite_covers(mem, i0, x0, y0, rows, p % 64, p / 64)
        } else {
            scr0[p]
        })
}

/// Two stages of a draw see the same collisions when every cell that
/// could collide is on the same side of both visited regions.
proof fn lemma_partial_same(
    mem: Seq<u8>,
    i0: int,
    x0: int,
    y0: int,
    rows: int,
    scr0: Seq<bool>,
    row_a: int,
    col_a: int,
    row_b: int,
    col_b: int,
)
    requires
        forall|p: int|
            0 <= p < 2048 && #[trigger] scr0[p] && sprite_covers(mem, i0, x0, y0, rows, p % 64, p
                / 64) ==> (draw_processed(x0, y0, row_a, col_a, p % 64, p / 64) == draw_processed(
                x0,
                y0,
                row_b,
                col_b,
                p % 64,
                p / 64,
            )),
    ensures
        partial_collides(mem, i0, x0, y0, rows, scr0, row_a, col_a) == partial_collides(
            mem,
            i0,
            x0,
            y0,
            rows,
            scr0,
            row_b,
            col_b,
        ),
{
}

impl Emulator {
    /// `DXYN`: XOR-draws `rows` sprite rows read from memory at the index
    /// register, with the origin at the coordinates held in registers X
    /// and Y taken modulo the screen size; drawing clips at the right and
    /// bottom edges. Register F becomes 1 exactly when a lit cell is
    /// turned off. Reports a memory overrun, changing nothing, when a
    /// drawn row would be read from past 0xFFF.
    pub fn draw_to_screen(
        &mut self,
        register_x: usize,
        register_y: usize,
        rows: usize,
        screen: &mut Screen,
    ) -> (r: Result<(), Chip8Error>)
        requires
            old(self).wf(),
            old(screen).wf(),
            register_x < 16,
            register_y < 16,
        ensures
            final(self).wf(),
            final(screen).wf(),
            rel_display(
                *old(self),
                *final(self),
                old(screen).pixels@,
                final(screen).pixels@,
                register_x,
                register_y,
                rows,
                r,
            ),
    {
        let x0 = (self.registers[register_x] % 64) as usize;
        let y0 = (self.registers[register_y] % 32) as usize;
        let eff_rows = if rows > 32 - y0 {
            32 - y0
        } else {
            rows
        };
        let i0 = self.index_register as usize;
        if eff_rows > 0 && i0 + eff_rows > 4096 {
            return Err(Chip8Error::MemoryOverrun);
        }
        self.registers.set(15, 0);
        let ghost pre = *old(self);
        let ghost m = pre.memory@;
        let ghost scr0 = old(screen).pixels@;
        let ghost xi = x0 as int;
        let ghost yi = y0 as int;
        let ghost i0i = i0 as int;
        let ghost er = eff_rows as int;
        let mut row: usize = 0;
        while row < eff_rows
            invariant
                self.wf(),
                pre.wf(),
                screen.wf(),
                register_x < 16,
                register_y < 16,
                xi == pre.registers@[register_x as int] as int % 64,
                yi == pre.registers@[register_y as int] as int % 32,
                er == if rows > 32 - yi {
                    32 - yi
                } else {
                    rows as int
                },
                0 <= xi < 64,
                0 <= yi < 32,
                yi + er <= 32,
                x0 == xi,
                y0 == yi,
                i0 == i0i,
                eff_rows == er,
                m == pre.memory@,
                i0i == pre.index_register,
                er > 0 ==> i0i + er <= 4096,
                row <= er,
                scr0.len() == 2048,
                eq_except_regs(pre, *self),
                self.registers@ == pre.registers@.update(
                    15,
                    if partial_collides(m, i0i, xi, yi, er, scr0, row as int, 0) {
                        1u8
                    } else {
                        0u8
                    },
                ),
                draw_screen_inv(m, i0i, xi, yi, er, scr0, screen.pixels@, row as int, 0),
            decreases er - row,
        {
            let byte = self.memory[i0 + row];
            let mut col: usize = 0;
            while col < 8 && x0 + col < 64
                invariant
                    self.wf(),
                    pre.wf(),
                    screen.wf(),
                    register_x < 16,
                    register_y < 16,
                    xi == pre.registers@[register_x as int] as int % 64,
                    yi == pre.registers@[register_y as int] as int % 32,
                    er == if rows > 32 - yi {
                        32 - yi
                    } else {
                        rows as int
                    },
                    0 <= xi < 64,
                    0 <= yi < 32,
                    yi + er <= 32,
                    x0 == xi,
                    y0 == yi,
                    i0 == i0i,
                    eff_rows == er,
                    m == pre.memory@,
                    i0i == pre.index_register,
                    i0i + er <= 4096,
                    row < er,
                    col <= 8,
                    xi + col <= 64,
                    byte == m[i0i + row],
                    scr0.len() == 2048,
                    eq_except_regs(pre, *self),
                    self.registers@ == pre.registers@.update(
                        15,
                        if partial_collides(m, i0i, xi, yi, er, scr0, row as int, col as int) {
                            1u8
                        } else {
                            0u8
                        },
                    ),
                    draw_screen_inv(
                        m,
                        i0i,
                        xi,
                        yi,
                        er,
                        scr0,
                        screen.pixels@,
                        row as int,
                        col as int,
                    ),
                decreases 8 - col,
            {
                let sprite_bit = (byte >> ((7 - col) as u8)) & 1;
                let px = x0 + col;
                let py = y0 + row;
                let ghost pxi = px as int;
                let ghost pyi = py as int;
                let ghost pcell = pyi * 64 + pxi;
                let ghost s_entry = screen.pixels@;
                proof {
                    assert(pcell % 64 == pxi && pcell / 64 == pyi && 0 <= pcell < 2048) by (nonlinear_arith)
                        requires
                            0 <= pxi < 64,
                            0 <= pyi < 32,
                            pcell == pyi * 64 + pxi,
                    ;
                    assert(sprite_covers(m, i0i, xi, yi, er, pxi, pyi) == (sprite_bit == 1));
                    assert(!draw_processed(xi, yi, row as int, col as int, pxi, pyi));
                    assert(s_entry[pcell] == scr0[pcell]);
                }
                if sprite_bit == 1 {
                    let cur = screen.get(px, py);
                    if cur {
                        screen.set(px, py, false);
                        self.registers.set(15, 1);
                        proof {
                            assert(self.registers@ =~= pre.registers@.update(15, 1u8));
                            assert(draw_processed(xi, yi, row as int, col + 1, pxi, pyi));
                            assert(scr0[pcell]);
                            assert(partial_collides(m, i0i, xi, yi, er, scr0, row as int, col + 1));
                        }
                    } else {
                        screen.set(px, py, true);
                        proof {
                            assert(!scr0[pcell]);
                            assert forall|p: int|
                                0 <= p < 2048 && #[trigger] scr0[p] && sprite_covers(
                                    m,
                                    i0i,
                                    xi,
                                    yi,
                                    er,
                                    p % 64,
                                    p / 64,
                                ) implies (draw_processed(xi, yi, row as int, col + 1, p % 64, p
                                / 64) == draw_processed(
                                xi,
                                yi,
                                row as int,
                                col as int,
                                p % 64,
                                p / 64,
                            )) by {
                                if p % 64 == pxi && p / 64 == pyi {
                                    assert(p == pcell) by (nonlinear_arith)
                                        requires
                                            0 <= p < 2048,
                                            p % 64 == pxi,
                                            p / 64 == pyi,
                                            pcell == pyi * 64 + pxi,
                                    ;
                                    assert(false);
                                }
                            }
                            lemma_partial_same(
                                m,
                                i0i,
                                xi,
                                yi,
                                er,
                                scr0,
                                row as int,
                                col + 1,
                                row as int,
                                col as int,
                            );
                        }
                    }
                } else {
                    proof {
                        assert forall|p: int|
                            0 <= p < 2048 && #[trigger] scr0[p] && sprite_covers(
                                m,
                                i0i,
                                xi,
                                yi,
                                er,
                                p % 64,
                                p / 64,
                            ) implies (draw_processed(xi, yi, row as int, col + 1, p % 64, p / 64)
                            == draw_processed(
                            xi,
                            yi,
                            row as int,
                            col as int,
                            p % 64,
                            p / 64,
                        )) by {
                            if p % 64 == pxi && p / 64 == pyi {
                                assert(false);
                            }
                        }
                        lemma_partial_same(
                            m,
                            i0i,
                            xi,
                            yi,
                            er,
                            scr0,
                            row as int,
                            col + 1,
                            row as int,
                            col as int,
                        );
                    }
                }
                proof {
                    assert forall|p: int| 0 <= p < 2048 implies #[trigger] screen.pixels@[p] == (
                    if draw_processed(xi, yi, row as int, col + 1, p % 64, p / 64) {
                        scr0[p] != sprite_covers(m, i0i, xi, yi, er, p % 64, p / 64)
                    } else {
                        scr0[p]
                    }) by {
                        assert(s_entry[p] == (if draw_processed(
                            xi,
                            yi,
                            row as int,
                            col as int,
                            p % 64,
                            p / 64,
                        ) {
                            scr0[p] != sprite_covers(m, i0i, xi, yi, er, p % 64, p / 64)
                        } else {
                            scr0[p]
                        }));
                        if p == pcell {
                        } else {
                            assert(!(p % 64 == pxi && p / 64 == pyi)) by (nonlinear_arith)
                                requires
                                    0 <= p < 2048,
                                    p != pcell,
                                    pcell == pyi * 64 + pxi,
                                    0 <= pxi < 64,
                                    0 <= pyi < 32,
                            ;
                        }
                    }
                    assert(draw_screen_inv(
                        m,
                        i0i,
                        xi,
                        yi,
                        er,
                        scr0,
                        screen.pixels@,
                        row as int,
                        col + 1,
                    ));
                }
                col = col + 1;
            }
            proof {
                assert forall|p: int|
                    0 <= p < 2048 && #[trigger] scr0[p] && sprite_covers(
                        m,
                        i0i,
                        xi,
                        yi,
                        er,
                        p % 64,
                        p / 64,
                    ) implies (draw_processed(xi, yi, row as int, col as int, p % 64, p / 64)
                    == draw_processed(xi, yi, row + 1, 0, p % 64, p / 64)) by {
                    assert(0 <= p % 64 < 64 && 0 <= p / 64 < 32) by (nonlinear_arith)
                        requires
                            0 <= p < 2048,
                    ;
                }
                lemma_partial_same(m, i0i, xi, yi, er, scr0, row as int, col as int, row + 1, 0);
                assert forall|p: int| 0 <= p < 2048 implies #[trigger] screen.pixels@[p] == (
                if draw_processed(xi, yi, row + 1, 0, p % 64, p / 64) {
                    scr0[p] != sprite_covers(m, i0i, xi, yi, er, p % 64, p / 64)
                } else {
                    scr0[p]
                }) by {
                    assert(screen.pixels@[p] == (if draw_processed(
                        xi,
                        yi,
                        row as int,
                        col as int,
                        p % 64,
                        p / 64,
                    ) {
                        scr0[p] != sprite_covers(m, i0i, xi, yi, er, p % 64, p / 64)
                    } else {
                        scr0[p]
                    }));
                    assert(0 <= p % 64 < 64 && 0 <= p / 64 < 32) by (nonlinear_arith)
                        requires
                            0 <= p < 2048,
                    ;
                }
                assert(draw_screen_inv(m, i0i, xi, yi, er, scr0, screen.pixels@, row + 1, 0));
            }
            row = row + 1;
        }
        proof {
            assert forall|p: int|
                0 <= p < 2048 && #[trigger] scr0[p] && sprite_covers(
                    m,
                    i0i,
                    xi,
                    yi,
                    er,
                    p % 64,
                    p / 64,
                ) implies (draw_processed(xi, yi, er, 0, p % 64, p / 64) == true) by {
                assert(0 <= p % 64 < 64 && 0 <= p / 64 < 32) by (nonlinear_arith)
                    requires
                        0 <= p < 2048,
                ;
            }
            assert(partial_collides(m, i0i, xi, yi, er, scr0, er, 0) == draw_collides(
                m,
                i0i,
                xi,
                yi,
                er,
                scr0,
            ));
            assert forall|p: int| 0 <= p < 2048 implies #[trigger] screen.pixels@[p] == (scr0[p]
                != sprite_covers(m, i0i, xi, yi, er, p % 64, p / 64)) by {
                assert(screen.pixels@[p] == (if draw_processed(xi, yi, er, 0, p % 64, p / 64) {
                    scr0[p] != sprite_covers(m, i0i, xi, yi, er, p % 64, p / 64)
                } else {
                    scr0[p]
                }));
                assert(0 <= p % 64 < 64 && 0 <= p / 64 < 32) by (nonlinear_arith)
                    requires
                        0 <= p < 2048,
                ;
            }
        }
        Ok(())
    }
}

/// Whether the machine is in its power-on state apart from the quirks:
/// font loaded, everything else zeroed, execution starting at 0x200.
pub open spec fn fresh_machine(r: Emulator) -> bool {
    &&& r.program_counter == PROGRAM_START
    &&& r.index_register == 0
    &&& r.stack@ == Seq::<usize>::empty()
    &&& r.delay_timer.counter == 0
    &&& r.sound_timer.counter == 0
    &&& r.newly_pressed is None
    &&& forall|j: int| 0 <= j < 16 ==> r.registers@[j] == 0
    &&& forall|j: int| 0 <= j < 16 ==> !r.keypad@[j]
    &&& forall|a: int| 0 <= a < 4096 && !(0x50 <= a < 0xA0) ==> r.memory@[a] == 0
    &&& forall|k: int| 0 <= k < 80 ==> r.memory@[0x50 + k] == font_data()[k]
}

/// The 16-glyph, 5-bytes-per-glyph hexadecimal font, glyphs 0 through F.
pub open spec fn font_data() -> Seq<u8> {
    seq![
        0xF0u8, 0x90, 0x90, 0x90, 0xF0,
        0x20, 0x60, 0x20, 0x20, 0x70,
        0xF0, 0x10, 0xF0, 0x80, 0xF0,
        0xF0, 0x10, 0xF0, 0x10, 0xF0,
        0x90, 0x90, 0xF0, 0x10, 0x10,
        0xF0, 0x80, 0xF0, 0x10, 0xF0,
        0xF0, 0x80, 0xF0, 0x90, 0xF0,
        0xF0, 0x10, 0x20, 0x40, 0x40,
        0xF0, 0x90, 0xF0, 0x90, 0xF0,
        0xF0, 0x90, 0xF0, 0x10, 0xF0,
        0xF0, 0x90, 0xF0, 0x90, 0x90,
        0xE0, 0x90, 0xE0, 0x90, 0xE0,
        0xF0, 0x80, 0x80, 0x80, 0xF0,
        0xE0, 0x90, 0x90, 0x90, 0xE0,
        0xF0, 0x80, 0xF0, 0x80, 0xF0,
        0xF0, 0x80, 0xF0, 0x80, 0x80,
    ]
}

/// Writes the font into its fixed region, leaving the rest of memory
/// untouched.
pub fn load_font(memory: &mut Vec<u8>)
    requires
        old(memory)@.len() == 4096,
    ensures
        final(memory)@.len() == 4096,
        forall|k: int| 0 <= k < 80 ==> final(memory)@[0x50 + k] == font_data()[k],
        forall|j: int|
            0 <= j < 4096 && !(0x50 <= j < 0xA0) ==> final(memory)@[j] == old(memory)@[j],
{
    let font: Vec<u8> = build_font();
    let ghost pre = old(memory)@;
    let mut k: usize = 0;
    while k < 80
        invariant
            k <= 80,
            font@ == font_data(),
            memory@.len() == 4096,
            forall|t: int| 0 <= t < k ==> memory@[0x50 + t] == font_data()[t],
            forall|j: int| 0 <= j < 4096 && !(0x50 <= j < 0x50 + k) ==> memory@[j] == pre[j],
        decreases 80 - k,
    {
        let b = font[k];
        memory.set(0x50 + k, b);
        k = k + 1;
    }
}

/// Builds the font table as a vector whose view is `font_data()`.
fn build_font() -> (r: Vec<u8>)
    ensures
        r@ == font_data(),
{
    let r: Vec<u8> = vec![
        0xF0u8, 0x90, 0x90, 0x90, 0xF0,
        0x20, 0x60, 0x20, 0x20, 0x70,
        0xF0, 0x10, 0xF0, 0x80, 0xF0,
        0xF0, 0x10, 0xF0, 0x10, 0xF0,
        0x90, 0x90, 0xF0, 0x10, 0x10,
        0xF0, 0x80, 0xF0, 0x10, 0xF0,
        0xF0, 0x80, 0xF0, 0x90, 0xF0,
        0xF0, 0x10, 0x20, 0x40, 0x40,
        0xF0, 0x90, 0xF0, 0x90, 0xF0,
        0xF0, 0x90, 0xF0, 0x10, 0xF0,
        0xF0, 0x90, 0xF0, 0x90, 0x90,
        0xE0, 0x90, 0xE0, 0x90, 0xE0,
        0xF0, 0x80, 0x80, 0x80, 0xF0,
        0xE0, 0x90, 0x90, 0x90, 0xE0,
        0xF0, 0x80, 0xF0, 0x80, 0xF0,
        0xF0, 0x80, 0xF0, 0x80, 0x80,
    ];
    proof {
        assert(r@ =~= font_data());
    }
    r
}

/// One dispatch of the instruction word `w` against the machine: an
/// unknown opcode is a harmless no-op, anything else follows its
/// decoded operation's relation.
pub open spec fn step_rel(
    pre: Emulator,
    post: Emulator,
    scr0: Seq<bool>,
    scr1: Seq<bool>,
    w: u16,
    r: Result<(), Chip8Error>,
) -> bool {
    match crate::instruction::decode_spec(w) {
        Some(sig) => crate::instruction::exec_rel(sig, pre, post, scr0, scr1, r),
        None => r == Ok::<(), Chip8Error>(()) && eq_machine(pre, post) && scr1 == scr0,
    }
}

/// The machine as an instruction sees it when dispatched: the program
/// counter already advanced past the instruction.
pub open spec fn advanced(pre: Emulator) -> Emulator {
    Emulator { program_counter: (pre.program_counter + 2) as usize, ..pre }
}

/// One full fetch–decode–execute cycle: the big-endian word at the
/// program counter is fetched, the program counter advances by 2, and
/// the word is dispatched. Fetching from past 0xFFF is a memory overrun
/// that changes nothing.
pub open spec fn cycle_rel(
    pre: Emulator,
    post: Emulator,
    scr0: Seq<bool>,
    scr1: Seq<bool>,
    r: Result<(), Chip8Error>,
) -> bool {
    if pre.program_counter + 1 >= 4096 {
        &&& r == Err::<(), Chip8Error>(Chip8Error::MemoryOverrun)
        &&& eq_machine(pre, post)
        &&& scr1 == scr0
    } else {
        step_rel(
            advanced(pre),
            post,
            scr0,
            scr1,
            crate::bit_utils::word_from_bytes(
                pre.memory@[pre.program_counter as int],
                pre.memory@[pre.program_counter + 1],
            ),
            r,
        )
    }
}

/// The machine after the once-per-tick timer decrement: both counters
/// one lower, floored at zero, everything else untouched.
pub open spec fn timers_ticked(pre: Emulator) -> Emulator {
    Emulator {
        delay_timer: Timer {
            counter: if pre.delay_timer.counter > 0 {
                (pre.delay_timer.counter - 1) as u8
            } else {
                0u8
            },
        },
        sound_timer: Timer {
            counter: if pre.sound_timer.counter > 0 {
                (pre.sound_timer.counter - 1) as u8
            } else {
                0u8
            },
        },
        ..pre
    }
}

/// A trace of consecutive machine and screen snapshots in which each
/// snapshot follows from the one before it by one successful
/// fetch–decode–execute cycle.
pub open spec fn cycle_trace(states: Seq<Emulator>, screens: Seq<Seq<bool>>) -> bool {
    &&& screens.len() == states.len()
    &&& forall|j: int|
        0 <= j < states.len() - 1 ==> cycle_rel(
            #[trigger] states[j],
            states[j + 1],
            screens[j],
            screens[j + 1],
            Ok::<(), Chip8Error>(()),
        )
}

impl Emulator {
    /// Loads the two instruction bytes at the program counter.
    pub fn get_instructions_from_memory(&self) -> (r: [u8; 2])
        requires
            self.wf(),
            self.program_counter + 1 < 4096,
        ensures
            r[0] == self.memory@[self.program_counter as int],
            r[1] == self.memory@[self.program_counter + 1],
    {
        [self.memory[self.program_counter], self.memory[self.program_counter + 1]]
    }

    /// Fetches the big-endian instruction word at the program counter
    /// and advances the program counter by 2, so that addresses written
    /// by jump, call and return are relative to the next instruction.
    pub fn fetch(&mut self) -> (r: u16)
        requires
            old(self).wf(),
            old(self).program_counter + 1 < 4096,
        ensures
            final(self).wf(),
            r == crate::bit_utils::word_from_bytes(
                old(self).memory@[old(self).program_counter as int],
                old(self).memory@[old(self).program_counter + 1],
            ),
            final(self).program_counter == old(self).program_counter + 2,
            eq_except_pc(*old(self), *final(self)),
    {
        let instruction_one = self.memory[self.program_counter];
        let instruction_two = self.memory[self.program_counter + 1];
        self.program_counter = self.program_counter + 2;
        crate::bit_utils::append_number_bits(&[instruction_one, instruction_two])
    }

    /// Advances the program counter past one instruction.
    pub fn increment_program_counter(&mut self)
        requires
            old(self).wf(),
            old(self).program_counter + 2 <= usize::MAX,
        ensures
            final(self).wf(),
            final(self).program_counter == old(self).program_counter + 2,
            eq_except_pc(*old(self), *final(self)),
    {
        self.program_counter = self.program_counter + 2;
    }

    /// Decodes the two fetched instruction bytes and executes the
    /// operation they name; an instruction matching no table entry is a
    /// no-op that leaves the whole machine unchanged.
    pub fn parse_instruction(&mut self, instruction: &[u8; 2], screen: &mut Screen) -> (r: Result<
        (),
        Chip8Error,
    >)
        requires
            old(self).wf(),
            old(screen).wf(),
            old(self).program_counter >= 2,
            old(self).program_counter + 2 <= usize::MAX,
        ensures
            final(self).wf(),
            final(screen).wf(),
            step_rel(
                *old(self),
                *final(self),
                old(screen).pixels@,
                final(screen).pixels@,
                crate::bit_utils::word_from_bytes(instruction[0], instruction[1]),
                r,
            ),
    {
        let word = crate::bit_utils::append_number_bits(instruction);
        match crate::instruction::decode(word) {
            Ok(sig) => sig.execute(self, screen),
            Err(_) => Ok(()),
        }
    }

    /// Runs one fetch–decode–execute cycle against the display surface;
    /// fetching from past 0xFFF is reported as a memory overrun.
    pub fn cycle(&mut self, screen: &mut Screen) -> (r: Result<(), Chip8Error>)
        requires
            old(self).wf(),
            old(screen).wf(),
        ensures
            final(self).wf(),
            final(screen).wf(),
            cycle_rel(
                *old(self),
                *final(self),
                old(screen).pixels@,
                final(screen).pixels@,
                r,
            ),
    {
        if self.program_counter >= 4095 {
            return Err(Chip8Error::MemoryOverrun);
        }
        let hi = self.memory[self.program_counter];
        let lo = self.memory[self.program_counter + 1];
        self.program_counter = self.program_counter + 2;
        proof {
            assert(*self == advanced(*old(self)));
        }
        self.parse_instruction(&[hi, lo], screen)
    }

    /// One host tick: decrements both timers once, then runs the given
    /// number of fetch–decode–execute cycles in program order, stopping
    /// at the first fatal error. Timers tick at the host's fixed rate no
    /// matter how many instructions run per tick.
    pub fn tick(&mut self, screen: &mut Screen, instructions_per_tick: usize) -> (r: Result<
        (),
        Chip8Error,
    >)
        requires
            old(self).wf(),
            old(screen).wf(),
        ensures
            final(self).wf(),
            final(screen).wf(),
            r == Ok::<(), Chip8Error>(()) ==> exists|states: Seq<Emulator>, screens: Seq<
                Seq<bool>,
            >|
                {
                    &&& #[trigger] cycle_trace(states, screens)
                    &&& states.len() == instructions_per_tick + 1
                    &&& states[0] == timers_ticked(*old(self))
                    &&& states.last() == *final(self)
                    &&& screens[0] == old(screen).pixels@
                    &&& screens.last() == final(screen).pixels@
                },
            r matches Err(e) ==> exists|states: Seq<Emulator>, screens: Seq<Seq<bool>>|
                {
                    &&& #[trigger] cycle_trace(states, screens)
                    &&& states.len() <= instructions_per_tick
                    &&& states.len() >= 1
                    &&& states[0] == timers_ticked(*old(self))
                    &&& screens[0] == old(screen).pixels@
                    &&& cycle_rel(
                        states.last(),
                        *final(self),
                        screens.last(),
                        final(screen).pixels@,
                        Err(e),
                    )
                },
    {
        self.delay_timer.decrement();
        self.sound_timer.decrement();
        let ghost start = *self;
        let ghost mut states: Seq<Emulator> = seq![start];
        let ghost mut screens: Seq<Seq<bool>> = seq![screen.pixels@];
        proof {
            assert(start == timers_ticked(*old(self)));
        }
        let mut i: usize = 0;
        while i < instructions_per_tick
            invariant
                self.wf(),
                screen.wf(),
                i <= instructions_per_tick,
                states.len() == i + 1,
                screens.len() == i + 1,
                states[0] == timers_ticked(*old(self)),
                screens[0] == old(screen).pixels@,
                states.last() == *self,
                screens.last() == screen.pixels@,
                cycle_trace(states, screens),
            decreases instructions_per_tick - i,
        {
            let ghost mid = *self;
            let ghost scrm = screen.pixels@;
            match self.cycle(screen) {
                Err(e) => {
                    proof {
                        assert(cycle_trace(states, screens));
                        assert(states.last() == mid);
                    }
                    return Err(e);
                },
                Ok(()) => {},
            }
            proof {
                let states2 = states.push(*self);
                let screens2 = screens.push(screen.pixels@);
                assert forall|j: int| 0 <= j < states2.len() - 1 implies cycle_rel(
                    #[trigger] states2[j],
                    states2[j + 1],
                    screens2[j],
                    screens2[j + 1],
                    Ok::<(), Chip8Error>(()),
                ) by {
                    if j < states.len() - 1 {
                        assert(states2[j] == states[j]);
                        assert(states2[j + 1] == states[j + 1]);
                        assert(screens2[j] == screens[j]);
                        assert(screens2[j + 1] == screens[j + 1]);
                    } else {
                        assert(states2[j] == mid);
                        assert(states2[j + 1] == *self);
                        assert(screens2[j] == scrm);
                        assert(screens2[j + 1] == screen.pixels@);
                    }
                }
                assert(cycle_trace(states2, screens2));
                states = states2;
                screens = screens2;
            }
            i = i + 1;
        }
        proof {
            assert(cycle_trace(states, screens));
            assert(states.last() == *self);
        }
        Ok(())
    }

    /// Reads whether the given keypad key is down in the snapshot.
    pub fn is_down(&self, key: u8) -> (r: bool)
        requires
            self.wf(),
            key < 16,
        ensures
            r == self.keypad@[key as int],
    {
        self.keypad[key as usize]
    }

    /// Refreshes one key of the keypad snapshot; a key going from up to
    /// down is recorded as the pending transition the key-wait
    /// instruction consumes.
    pub fn set_key_state(&mut self, key: u8, down: bool)
        requires
            old(self).wf(),
            key < 16,
        ensures
            final(self).wf(),
            final(self).keypad@ == old(self).keypad@.update(key as int, down),
            final(self).newly_pressed == if down && !old(self).keypad@[key as int] {
                Some(key)
            } else {
                old(self).newly_pressed
            },
            eq_memory(*old(self), *final(self)),
            eq_registers(*old(self), *final(self)),
            eq_pc(*old(self), *final(self)),
            eq_index(*old(self), *final(self)),
            eq_stack(*old(self), *final(self)),
            eq_timers(*old(self), *final(self)),
            eq_quirks(*old(self), *final(self)),
    {
        if down && !self.keypad[key as usize] {
            self.newly_pressed = Some(key);
        }
        self.keypad.set(key as usize, down);
    }
}

/// Relies on `rand::random`: a value sampled from the standard
/// distribution of the type; nothing is promised of the result.
pub assume_specification<T>[ rand::random::<T> ]() -> (r: T)
    where
        rand::distributions::Standard: rand::distributions::Distribution<T>,
;

/// Draws one random byte. Two calls may differ; callers state only what
/// holds of every outcome.
fn random_byte() -> u8 {
    rand::random::<u8>()
}

} // verus!

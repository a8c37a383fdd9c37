//! Laws of the instruction set: properties that relate the operations
//! to one another, proved from the operations' own relations.

use crate::emulator::Chip8Error;
use crate::emulator::Emulator;
use crate::emulator::cycle_rel;
use crate::emulator::draw_collides;
use crate::emulator::eq_machine;
use crate::emulator::rel_add_registers;
use crate::emulator::rel_call_subroutine;
use crate::emulator::rel_display;
use crate::emulator::rel_stack_return;
use crate::emulator::rel_subtract_registers;
use crate::emulator::sprite_covers;
use crate::emulator::sprite_row_bit;
use crate::emulator::step_rel;
use crate::instruction::decode_spec;
use vstd::prelude::*;

verus! {

/// Carry law of `8XY4`: for any two register values, the target
/// register ends as their sum modulo 256, and — whenever the target is
/// not the flag register itself — `VF` ends as 1 exactly when the
/// mathematical sum exceeds 255.
pub proof fn lemma_add_registers_carry(pre: Emulator, post: Emulator, x: usize, y: usize)
    requires
        pre.wf(),
        x < 16,
        y < 16,
        rel_add_registers(pre, post, x, y),
    ensures
        post.registers@[x as int] == (pre.registers@[x as int] + pre.registers@[y as int]) % 256,
        x != 15 ==> post.registers@[15] == (
        if pre.registers@[x as int] + pre.registers@[y as int] > 255 {
            1u8
        } else {
            0u8
        }),
{
}

/// Borrow law of `8XY5`/`8XY7`: for any two register values, the left
/// register ends as their difference modulo 256, and — whenever the
/// left register is not the flag register itself — `VF` ends as 1
/// exactly when the left value is at least the right one.
pub proof fn lemma_subtract_registers_borrow(
    pre: Emulator,
    post: Emulator,
    left: usize,
    right: usize,
)
    requires
        pre.wf(),
        left < 16,
        right < 16,
        rel_subtract_registers(pre, post, left, right),
    ensures
        post.registers@[left as int] == (pre.registers@[left as int] - pre.registers@[right as int])
            % 256,
        left != 15 ==> post.registers@[15] == (
        if pre.registers@[left as int] >= pre.registers@[right as int] {
            1u8
        } else {
            0u8
        }),
{
}

/// Subroutine law: a return (`00EE`) immediately after a call (`2NNN`)
/// succeeds and restores the program counter to the instruction
/// following the call — the counter had already advanced past the call
/// when the call was dispatched — leaving the stack as it was before
/// the call.
pub proof fn lemma_call_then_return(
    pre: Emulator,
    mid: Emulator,
    post: Emulator,
    address: usize,
    r: Result<(), Chip8Error>,
)
    requires
        pre.wf(),
        rel_call_subroutine(pre, mid, address),
        rel_stack_return(mid, post, r),
    ensures
        r == Ok::<(), Chip8Error>(()),
        post.program_counter == pre.program_counter,
        post.stack@ == pre.stack@,
{
    assert(mid.stack@.len() == pre.stack@.len() + 1);
    assert(post.stack@ =~= pre.stack@);
}

/// Underflow law: a return (`00EE`) on an empty stack is reported as a
/// stack underflow and leaves the whole machine unchanged — never a
/// silent no-op.
pub proof fn lemma_return_on_empty_stack(pre: Emulator, post: Emulator, r: Result<(), Chip8Error>)
    requires
        pre.stack@.len() == 0,
        rel_stack_return(pre, post, r),
    ensures
        r == Err::<(), Chip8Error>(Chip8Error::StackUnderflow),
        eq_machine(pre, post),
{
}

/// Unknown-opcode law: dispatching a word that matches no table entry
/// reports success and leaves every part of the machine and the display
/// unchanged.
pub proof fn lemma_unknown_opcode_is_noop(
    pre: Emulator,
    post: Emulator,
    scr0: Seq<bool>,
    scr1: Seq<bool>,
    w: u16,
    r: Result<(), Chip8Error>,
)
    requires
        step_rel(pre, post, scr0, scr1, w, r),
        decode_spec(w) is None,
    ensures
        r == Ok::<(), Chip8Error>(()),
        eq_machine(pre, post),
        scr1 == scr0,
{
}

/// Unknown-opcode law over a whole cycle: when the fetched word matches
/// no table entry, the cycle succeeds, the program counter advances by
/// exactly 2, and registers, memory, stack, index register, timers and
/// display are left unchanged.
pub proof fn lemma_unknown_opcode_cycle(
    pre: Emulator,
    post: Emulator,
    scr0: Seq<bool>,
    scr1: Seq<bool>,
    r: Result<(), Chip8Error>,
)
    requires
        pre.wf(),
        pre.program_counter + 1 < 4096,
        cycle_rel(pre, post, scr0, scr1, r),
        decode_spec(
            crate::bit_utils::word_from_bytes(
                pre.memory@[pre.program_counter as int],
                pre.memory@[pre.program_counter + 1],
            ),
        ) is None,
    ensures
        r == Ok::<(), Chip8Error>(()),
        post.program_counter == pre.program_counter + 2,
        post.registers@ == pre.registers@,
        post.memory@ == pre.memory@,
        post.stack@ == pre.stack@,
        post.index_register == pre.index_register,
        post.delay_timer == pre.delay_timer,
        post.sound_timer == pre.sound_timer,
        scr1 == scr0,
{
}

/// XOR self-inverse law of the draw instruction: drawing the all-ones
/// one-row sprite twice at the same coordinates on an initially clear
/// display succeeds both times, reports no collision on the first draw,
/// reports a collision (`VF = 1`) on the second, and returns the display
/// to all-clear. Stated for coordinate registers other than `VF`, whose
/// value the first draw's collision flag would overwrite.
pub proof fn lemma_draw_twice_self_inverse(
    s0: Emulator,
    s1: Emulator,
    s2: Emulator,
    scr0: Seq<bool>,
    scr1: Seq<bool>,
    scr2: Seq<bool>,
    x: usize,
    y: usize,
    r1: Result<(), Chip8Error>,
    r2: Result<(), Chip8Error>,
)
    requires
        s0.wf(),
        x < 16,
        y < 16,
        x != 15,
        y != 15,
        scr0.len() == 2048,
        forall|p: int| 0 <= p < 2048 ==> !scr0[p],
        s0.index_register + 1 <= 4096,
        s0.memory@[s0.index_register as int] == 0xFF,
        rel_display(s0, s1, scr0, scr1, x, y, 1, r1),
        rel_display(s1, s2, scr1, scr2, x, y, 1, r2),
    ensures
        r1 == Ok::<(), Chip8Error>(()),
        r2 == Ok::<(), Chip8Error>(()),
        s1.registers@[15] == 0,
        s2.registers@[15] == 1,
        forall|p: int| 0 <= p < 2048 ==> !scr2[p],
{
    let x0 = s0.registers@[x as int] as int % 64;
    let y0 = s0.registers@[y as int] as int % 32;
    let i0 = s0.index_register as int;
    assert((0xFFu8 >> 0u8) & 1 == 1 && (0xFFu8 >> 1u8) & 1 == 1 && (0xFFu8 >> 2u8) & 1 == 1 && (
    0xFFu8 >> 3u8) & 1 == 1 && (0xFFu8 >> 4u8) & 1 == 1 && (0xFFu8 >> 5u8) & 1 == 1 && (0xFFu8
        >> 6u8) & 1 == 1 && (0xFFu8 >> 7u8) & 1 == 1) by (bit_vector);
    // the first draw sees no lit cell, so it cannot collide
    assert(!draw_collides(s0.memory@, i0, x0, y0, 1, scr0));
    assert(s1.registers@ == s0.registers@.update(15, 0u8));
    // the second draw reads the same sprite at the same origin
    assert(s1.registers@[x as int] == s0.registers@[x as int]);
    assert(s1.registers@[y as int] == s0.registers@[y as int]);
    assert(s1.memory@ == s0.memory@);
    assert(s1.index_register == s0.index_register);
    // the origin cell was lit by the first draw and is covered again
    let p0 = y0 * 64 + x0;
    assert(p0 % 64 == x0 && p0 / 64 == y0 && 0 <= p0 < 2048) by (nonlinear_arith)
        requires
            0 <= x0 < 64,
            0 <= y0 < 32,
            p0 == y0 * 64 + x0,
    ;
    assert(sprite_row_bit(s0.memory@[i0], 0));
    assert(sprite_covers(s0.memory@, i0, x0, y0, 1, p0 % 64, p0 / 64));
    assert(scr1[p0]);
    assert(draw_collides(s1.memory@, i0, x0, y0, 1, scr1));
    assert(s2.registers@ == s1.registers@.update(15, 1u8));
    // XOR is its own inverse: each cell returns to its original state
    assert forall|p: int| 0 <= p < 2048 implies !scr2[p] by {
        assert(scr1[p] == (scr0[p] != sprite_covers(s0.memory@, i0, x0, y0, 1, p % 64, p / 64)));
    }
}

} // verus!

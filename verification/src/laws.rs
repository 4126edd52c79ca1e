//! Properties of the instruction cycle, proved from its definition.

use vstd::prelude::*;
use crate::display::{blank, column_offset, erases, row_collides, row_drawn, sprite_bit};
use crate::error::Chip8Error;
use crate::instruction::{decode_spec, lemma_decoded_operands_in_range, Instruction};
use crate::keypad::{first_pressed, lemma_first_pressed_from, none_pressed_from};
use crate::machine::{
    current_instruction, fetch_spec, fetchable, sprite_collides, sprite_drawn, step_spec, Machine,
};

verus! {

/// The machine after `n` successive cycles, or the first error met.
pub open spec fn run_spec(m: Machine, n: nat) -> Result<Machine, Chip8Error>
    decreases n,
{
    if n == 0 {
        Ok(m)
    } else {
        match run_spec(m, (n - 1) as nat) {
            Ok(before) => step_spec(before),
            Err(e) => Err(e),
        }
    }
}

/// An instruction that neither transfers control, nor may skip, nor is a key
/// wait with no key down, moves the program counter forward by exactly 2. The
/// only way such a cycle can fail is a sprite that reaches past the end of
/// memory.
pub proof fn lemma_sequential_advance(m: Machine, ins: Instruction)
    requires
        m.shaped(),
        current_instruction(m) == Some(ins),
        !ins.transfers_control(),
        !ins.may_skip(),
        !(ins is LdKey && first_pressed(m.keys) is None),
    ensures
        match step_spec(m) {
            Ok(next) => next.pc == m.pc + 2,
            Err(e) => e == Chip8Error::BoundsViolation && ins is Drw,
        },
{
    lemma_decoded_operands_in_range(fetch_spec(m)->Ok_0);
}

/// A jump or a call leaves the program counter at its operand; a return
/// leaves it 2 past the address on top of the stack. A jump cannot fail, a
/// call fails only on a full stack, and a return only on an empty stack, a
/// stack pointer beyond 16 or a return address that leaves no room to add 2.
pub proof fn lemma_control_transfer(m: Machine, ins: Instruction)
    requires
        m.shaped(),
        current_instruction(m) == Some(ins),
        ins.transfers_control(),
    ensures
        match step_spec(m) {
            Ok(next) => match ins {
                Instruction::Jp { addr } => next.pc == addr,
                Instruction::Call { addr } => next.pc == addr,
                _ => next.pc == m.stack[m.sp - 1] + 2,
            },
            Err(e) => match ins {
                Instruction::Jp { .. } => false,
                Instruction::Call { .. } => e == Chip8Error::StackOverflow && m.sp >= 16,
                _ => if m.sp == 0 {
                    e == Chip8Error::StackUnderflow
                } else {
                    e == Chip8Error::BoundsViolation && (m.sp > 16 || m.stack[m.sp - 1] > 0xFFFD)
                },
            },
        },
{
}

/// A word that encodes no instruction is reported, whatever else the machine
/// holds.
pub proof fn lemma_unknown_word_reported(m: Machine)
    requires
        fetchable(m),
        current_instruction(m) is None,
    ensures
        step_spec(m) == Err::<Machine, Chip8Error>(
            Chip8Error::UnknownOpcode(fetch_spec(m)->Ok_0),
        ),
{
}

/// `SE Vx, kk` moves the program counter by 4 when `Vx == kk` and by 2
/// otherwise, and changes nothing else.
pub proof fn lemma_skip_if_equal(m: Machine, x: u8, kk: u8)
    requires
        m.shaped(),
        current_instruction(m) == Some(Instruction::Se { x, kk }),
    ensures
        x < 16,
        step_spec(m) == Ok::<Machine, Chip8Error>(
            m.advanced(
                if m.v[x as int] == kk {
                    4
                } else {
                    2
                },
            ),
        ),
        m.v[x as int] == kk ==> step_spec(m)->Ok_0.pc == m.pc + 4,
        m.v[x as int] != kk ==> step_spec(m)->Ok_0.pc == m.pc + 2,
{
    lemma_decoded_operands_in_range(fetch_spec(m)->Ok_0);
}

/// `SNE Vx, kk` moves the program counter by 4 when `Vx != kk` and by 2
/// otherwise, and changes nothing else.
pub proof fn lemma_skip_if_not_equal(m: Machine, x: u8, kk: u8)
    requires
        m.shaped(),
        current_instruction(m) == Some(Instruction::Sne { x, kk }),
    ensures
        x < 16,
        step_spec(m) == Ok::<Machine, Chip8Error>(
            m.advanced(
                if m.v[x as int] != kk {
                    4
                } else {
                    2
                },
            ),
        ),
        m.v[x as int] != kk ==> step_spec(m)->Ok_0.pc == m.pc + 4,
        m.v[x as int] == kk ==> step_spec(m)->Ok_0.pc == m.pc + 2,
{
    lemma_decoded_operands_in_range(fetch_spec(m)->Ok_0);
}

/// A call with a free stack slot succeeds. If the machine later reaches a
/// return with the stack pointer and the slot written by the call as the call
/// left them, the return succeeds, lands on the instruction after the call
/// and restores the stack pointer the call found.
pub proof fn lemma_call_return_round_trip(m: Machine, addr: u16, later: Machine)
    requires
        m.shaped(),
        current_instruction(m) == Some(Instruction::Call { addr }),
        m.sp < 16,
        later.shaped(),
        current_instruction(later) == Some(Instruction::Ret),
        step_spec(m) is Ok ==> later.sp == step_spec(m)->Ok_0.sp && later.stack[m.sp as int]
            == step_spec(m)->Ok_0.stack[m.sp as int],
    ensures
        step_spec(m) is Ok,
        step_spec(m)->Ok_0.pc == addr,
        step_spec(m)->Ok_0.sp == m.sp + 1,
        step_spec(later) is Ok,
        step_spec(later)->Ok_0.pc == m.pc + 2,
        step_spec(later)->Ok_0.sp == m.sp,
{
}

/// After `LD Vx, kk`, an `SE Vx, other` skips exactly when `other == kk`.
pub proof fn lemma_load_then_compare(m: Machine, x: u8, kk: u8, other: u8)
    requires
        m.shaped(),
        current_instruction(m) == Some(Instruction::Ld { x, kk }),
        step_spec(m) is Ok ==> current_instruction(step_spec(m)->Ok_0) == Some(
            Instruction::Se { x, kk: other },
        ),
    ensures
        step_spec(m) is Ok,
        step_spec(m)->Ok_0.v[x as int] == kk,
        step_spec(step_spec(m)->Ok_0) is Ok,
        step_spec(step_spec(m)->Ok_0)->Ok_0.pc == m.pc + 2 + if other == kk {
            4int
        } else {
            2int
        },
{
    lemma_decoded_operands_in_range(fetch_spec(m)->Ok_0);
}

/// `ADD Vx, kk` stores the sum modulo 256 in `Vx` and touches no other
/// register, `VF` included.
pub proof fn lemma_add_wraps_without_flag(m: Machine, x: u8, kk: u8)
    requires
        m.shaped(),
        current_instruction(m) == Some(Instruction::Add { x, kk }),
    ensures
        step_spec(m) is Ok,
        step_spec(m)->Ok_0.v.len() == 16,
        step_spec(m)->Ok_0.v[x as int] == (m.v[x as int] + kk) % 256,
        forall|r: int| 0 <= r < 16 && r != x ==> step_spec(m)->Ok_0.v[r] == m.v[r],
{
    lemma_decoded_operands_in_range(fetch_spec(m)->Ok_0);
}

/// Drawing a sprite row on a dark screen collides with nothing; drawing the
/// same row again at the same place darkens the screen again, and collides
/// unless the row has no set bit.
pub proof fn lemma_draw_twice_on_blank(cells: Seq<u8>, x: int, y: int, sprite: u8)
    requires
        blank(cells),
    ensures
        !row_collides(cells, x, y, sprite),
        row_drawn(row_drawn(cells, x, y, sprite), x, y, sprite) == cells,
        row_collides(row_drawn(cells, x, y, sprite), x, y, sprite) <==> sprite != 0,
{
    let once = row_drawn(cells, x, y, sprite);
    assert(row_drawn(once, x, y, sprite) =~= cells);
    if sprite != 0 {
        assert(exists|d: int| 0 <= d < 8 && sprite_bit(sprite, d)) by {
            lemma_some_bit_set(sprite);
        }
        let d = choose|d: int| 0 <= d < 8 && sprite_bit(sprite, d);
        let cx = (x + d) % 64;
        assert(column_offset(x, cx) == d);
        assert((y % 32 * 64 + cx) % 64 == cx && (y % 32 * 64 + cx) / 64 == y % 32);
        assert(erases(once, x, y, sprite, cx));
    } else {
        assert(forall|d: int| !sprite_bit(sprite, d)) by {
            lemma_no_bit_set(sprite);
        }
    }
}

/// On a dark screen, a one-row `DRW` whose position registers are not `VF`
/// clears `VF`. Run once more from the same program counter, it sets `VF`
/// exactly when the row has a set bit, and leaves the screen dark again.
pub proof fn lemma_draw_row_twice(m: Machine, x: u8, y: u8)
    requires
        m.shaped(),
        blank(m.pixels),
        current_instruction(m) == Some(Instruction::Drw { x, y, n: 1 }),
        x != 15,
        y != 15,
        m.i < 4096,
    ensures
        step_spec(m) is Ok,
        step_spec(m)->Ok_0.v[15] == 0,
        step_spec(Machine { pc: m.pc, ..step_spec(m)->Ok_0 }) is Ok,
        step_spec(Machine { pc: m.pc, ..step_spec(m)->Ok_0 })->Ok_0.v[15] == if m.memory[m.i as int]
            != 0 {
            1u8
        } else {
            0u8
        },
        step_spec(Machine { pc: m.pc, ..step_spec(m)->Ok_0 })->Ok_0.pixels == m.pixels,
{
    lemma_decoded_operands_in_range(fetch_spec(m)->Ok_0);
    let rows = m.memory.subrange(m.i as int, m.i + 1);
    let left = m.v[x as int] as int;
    let top = m.v[y as int] as int;
    let row = m.memory[m.i as int];
    assert(rows.len() == 1 && rows.last() == row && rows.drop_last().len() == 0);
    lemma_draw_twice_on_blank(m.pixels, left, top, row);
    let once = row_drawn(m.pixels, left, top, row);
    assert(sprite_drawn(m.pixels, left, top, rows) == once) by {
        reveal_with_fuel(sprite_drawn, 2);
    }
    assert(!sprite_collides(m.pixels, left, top, rows)) by {
        reveal_with_fuel(sprite_collides, 2);
        reveal_with_fuel(sprite_drawn, 2);
    }
    assert(sprite_drawn(once, left, top, rows) == m.pixels) by {
        reveal_with_fuel(sprite_drawn, 2);
    }
    assert(sprite_collides(once, left, top, rows) == (row != 0)) by {
        reveal_with_fuel(sprite_collides, 2);
        reveal_with_fuel(sprite_drawn, 2);
    }
}

/// A nonzero byte has a set bit.
proof fn lemma_some_bit_set(sprite: u8)
    requires
        sprite != 0,
    ensures
        exists|d: int| 0 <= d < 8 && sprite_bit(sprite, d),
{
    assert(sprite != 0 ==> (sprite >> 7u8) & 1u8 == 1u8 || (sprite >> 6u8) & 1u8 == 1u8 || (sprite
        >> 5u8) & 1u8 == 1u8 || (sprite >> 4u8) & 1u8 == 1u8 || (sprite >> 3u8) & 1u8 == 1u8 || (
    sprite >> 2u8) & 1u8 == 1u8 || (sprite >> 1u8) & 1u8 == 1u8 || (sprite >> 0u8) & 1u8 == 1u8)
        by (bit_vector);
    assert(sprite_bit(sprite, 0) || sprite_bit(sprite, 1) || sprite_bit(sprite, 2) || sprite_bit(
        sprite,
        3,
    ) || sprite_bit(sprite, 4) || sprite_bit(sprite, 5) || sprite_bit(sprite, 6) || sprite_bit(
        sprite,
        7,
    ));
}

/// The zero byte has no set bit.
proof fn lemma_no_bit_set(sprite: u8)
    requires
        sprite == 0,
    ensures
        forall|d: int| !sprite_bit(sprite, d),
{
    assert forall|d: int| !sprite_bit(sprite, d) by {
        if 0 <= d < 8 {
            let shift = (7 - d) as u8;
            assert((0u8 >> shift) & 1u8 == 0u8) by (bit_vector);
        }
    }
}

/// A key wait with no key down changes nothing, however often the cycle is
/// repeated.
pub proof fn lemma_key_wait_stalls(m: Machine, x: u8, n: nat)
    requires
        m.shaped(),
        current_instruction(m) == Some(Instruction::LdKey { x }),
        none_pressed_from(m.keys, 0),
    ensures
        run_spec(m, n) == Ok::<Machine, Chip8Error>(m),
    decreases n,
{
    lemma_decoded_operands_in_range(fetch_spec(m)->Ok_0);
    lemma_first_pressed_from(m.keys, 0);
    if n > 0 {
        lemma_key_wait_stalls(m, x, (n - 1) as nat);
    }
}

/// A key wait with a key down stores the number of the lowest such key in
/// `Vx` and moves on to the next instruction.
pub proof fn lemma_key_wait_resumes(m: Machine, x: u8, key: u8)
    requires
        m.shaped(),
        current_instruction(m) == Some(Instruction::LdKey { x }),
        key < 16,
        m.keys[key as int],
        forall|j: int| 0 <= j < key ==> !m.keys[j],
    ensures
        step_spec(m) == Ok::<Machine, Chip8Error>(
            Machine { v: m.v.update(x as int, key), ..m.advanced(2) },
        ),
        step_spec(m)->Ok_0.pc == m.pc + 2,
        step_spec(m)->Ok_0.v[x as int] == key,
{
    lemma_decoded_operands_in_range(fetch_spec(m)->Ok_0);
    lemma_first_pressed_from(m.keys, 0);
}

/// With the program counter on the last byte of memory or beyond, the cycle
/// reports a bounds violation.
pub proof fn lemma_fetch_past_end_reported(m: Machine)
    requires
        m.pc >= 0xFFF,
    ensures
        step_spec(m) == Err::<Machine, Chip8Error>(Chip8Error::BoundsViolation),
{
}

/// A successful cycle keeps every store at its size and the stack pointer
/// between 0 and 16.
pub proof fn lemma_step_keeps_shape(m: Machine)
    requires
        m.shaped(),
        m.stack_in_range(),
        step_spec(m) is Ok,
    ensures
        step_spec(m)->Ok_0.shaped(),
        step_spec(m)->Ok_0.stack_in_range(),
{
    let word = fetch_spec(m)->Ok_0;
    lemma_decoded_operands_in_range(word);
    match decode_spec(word) {
        Some(Instruction::Drw { x, y, n }) => {
            let rows = m.memory.subrange(m.i as int, m.i + n);
            lemma_sprite_drawn_len(m.pixels, m.v[x as int] as int, m.v[y as int] as int, rows);
        },
        _ => {},
    }
}

/// Drawing a sprite keeps the buffer at its size.
pub proof fn lemma_sprite_drawn_len(cells: Seq<u8>, x: int, y: int, rows: Seq<u8>)
    requires
        cells.len() == 2048,
    ensures
        sprite_drawn(cells, x, y, rows).len() == 2048,
    decreases rows.len(),
{
    if rows.len() > 0 {
        lemma_sprite_drawn_len(cells, x, y, rows.drop_last());
    }
}

} // verus!

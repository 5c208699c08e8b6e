//! Properties of the instruction set that hold for every machine state.

use vstd::prelude::*;
use crate::instruction::{address_of, byte_of, decode_spec, nibble, Instruction};
use crate::machine::MachineState;
use crate::semantics::{apply_opcode, covers};

verus! {

/// The instruction word with hexadecimal digits `a b c d`.
pub open spec fn word(a: u8, b: u8, c: u8, d: u8) -> u16 {
    (a * 0x1000 + b * 0x100 + c * 0x10 + d) as u16
}

proof fn lemma_word_digits(a: u8, b: u8, c: u8, d: u8)
    requires
        a < 16,
        b < 16,
        c < 16,
        d < 16,
    ensures
        nibble(word(a, b, c, d), 0) == a,
        nibble(word(a, b, c, d), 1) == b,
        nibble(word(a, b, c, d), 2) == c,
        nibble(word(a, b, c, d), 3) == d,
        byte_of(word(a, b, c, d)) == c * 0x10 + d,
        address_of(word(a, b, c, d)) == b * 0x100 + c * 0x10 + d,
{
    let w = a * 0x1000 + b * 0x100 + c * 0x10 + d;
    assert(w < 0x10000);
    assert(w / 0x1000 == a);
    assert((w / 0x100) % 0x10 == b);
    assert((w / 0x10) % 0x10 == c);
    assert(w % 0x10 == d);
    assert(w % 0x100 == c * 0x10 + d);
    assert(w % 0x1000 == b * 0x100 + c * 0x10 + d);
}

/// The instruction word `8XY4`: add `VY` into `VX` with carry.
pub open spec fn add_reg_opcode(x: u8, y: u8) -> u16 {
    word(0x8, x, y, 0x4)
}

/// The instruction word `8XY5`: subtract `VY` from `VX` with borrow.
pub open spec fn sub_reg_opcode(x: u8, y: u8) -> u16 {
    word(0x8, x, y, 0x5)
}

/// The instruction word `FX55`: store `V0..=VX` at the index register.
pub open spec fn store_opcode(x: u8) -> u16 {
    word(0xF, x, 0x5, 0x5)
}

/// The instruction word `FX65`: load `V0..=VX` from the index register.
pub open spec fn load_opcode(x: u8) -> u16 {
    word(0xF, x, 0x6, 0x5)
}

/// The instruction word `FX33`: store the decimal digits of `VX`.
pub open spec fn bcd_opcode(x: u8) -> u16 {
    word(0xF, x, 0x3, 0x3)
}

/// The instruction word `DXYN`: draw an `N`-row sprite at `(VX, VY)`.
pub open spec fn draw_opcode(x: u8, y: u8, n: u8) -> u16 {
    word(0xD, x, y, n)
}

/// Add with carry: for every pair of register values `a = VX`, `b = VY`,
/// the flag register ends as 1 exactly when `a + b > 255`, and `VX` holds
/// `(a + b) mod 256`. (With `X = F` the sum overwrites the flag.)
pub proof fn lemma_add_with_carry(s: MachineState, x: u8, y: u8, rand: u8)
    requires
        s.wf(),
        x < 15,
        y < 16,
    ensures
        ({
            let (t, r) = apply_opcode(s, add_reg_opcode(x, y), rand);
            let (a, b) = (s.registers[x as int], s.registers[y as int]);
            &&& r is Ok
            &&& t.registers[15] == (if a + b > 255 { 1u8 } else { 0u8 })
            &&& t.registers[x as int] == (a + b) % 256
        }),
{
    lemma_word_digits(0x8, x, y, 0x4);
    assert(decode_spec(add_reg_opcode(x, y)) == Some(Instruction::AddReg { x, y }));
}

/// Subtract `VX - VY`: the flag register ends as 1 exactly when `VX >= VY`
/// (no borrow), and `VX` holds `(VX - VY) mod 256`. (With `X = F` the
/// difference overwrites the flag.)
pub proof fn lemma_subtract(s: MachineState, x: u8, y: u8, rand: u8)
    requires
        s.wf(),
        x < 15,
        y < 16,
    ensures
        ({
            let (t, r) = apply_opcode(s, sub_reg_opcode(x, y), rand);
            let (a, b) = (s.registers[x as int], s.registers[y as int]);
            &&& r is Ok
            &&& t.registers[15] == (if a >= b { 1u8 } else { 0u8 })
            &&& t.registers[x as int] == (a - b) % 256
        }),
{
    lemma_word_digits(0x8, x, y, 0x5);
    assert(decode_spec(sub_reg_opcode(x, y)) == Some(Instruction::SubReg { x, y }));
}

/// Storing `V0..=VX` and then loading `V0..=VX` from the same base address
/// gives back the registers exactly, for every `X` in `0..=15`, whenever the
/// `X + 1` bytes fit in memory.
pub proof fn lemma_store_load_round_trip(s: MachineState, x: u8, rand1: u8, rand2: u8)
    requires
        s.wf(),
        x < 16,
        s.index_register + x + 1 <= 4096,
    ensures
        ({
            let (s1, r1) = apply_opcode(s, store_opcode(x), rand1);
            let (s2, r2) = apply_opcode(s1, load_opcode(x), rand2);
            &&& r1 is Ok
            &&& r2 is Ok
            &&& s2.registers == s.registers
        }),
{
    lemma_word_digits(0xF, x, 0x5, 0x5);
    lemma_word_digits(0xF, x, 0x6, 0x5);
    assert(decode_spec(store_opcode(x)) == Some(Instruction::StoreRegisters { x }));
    assert(decode_spec(load_opcode(x)) == Some(Instruction::LoadRegisters { x }));
    let (s1, r1) = apply_opcode(s, store_opcode(x), rand1);
    let (s2, r2) = apply_opcode(s1, load_opcode(x), rand2);
    assert(s2.registers =~= s.registers);
}

/// Decimal store: for every value `v` of `VX`, the three bytes written at
/// the index register are `v / 100`, `(v / 10) % 10` and `v % 10`.
pub proof fn lemma_bcd_digits(s: MachineState, x: u8, rand: u8)
    requires
        s.wf(),
        x < 16,
        s.index_register + 3 <= 4096,
    ensures
        ({
            let (t, r) = apply_opcode(s, bcd_opcode(x), rand);
            let (v, i) = (s.registers[x as int], s.index_register as int);
            &&& r is Ok
            &&& t.memory[i] == v / 100
            &&& t.memory[i + 1] == (v / 10) % 10
            &&& t.memory[i + 2] == v % 10
        }),
{
    lemma_word_digits(0xF, x, 0x3, 0x3);
    assert(decode_spec(bcd_opcode(x)) == Some(Instruction::StoreBcd { x }));
}

/// Drawing the same sprite twice at the same anchor on a blank display:
/// the first draw reports no collision; the second restores the blank
/// display and reports a collision exactly when the sprite lit a pixel.
/// (The anchor registers must not be the flag register, which the first
/// draw overwrites.)
pub proof fn lemma_draw_twice(s: MachineState, x: u8, y: u8, n: u8, rand: u8)
    requires
        s.wf(),
        x < 15,
        y < 15,
        n < 16,
        s.index_register + n <= 4096,
        forall|i: int| 0 <= i < 2048 ==> s.screen[i] == 0u8,
    ensures
        ({
            let (s1, r1) = apply_opcode(s, draw_opcode(x, y, n), rand);
            let (s2, r2) = apply_opcode(s1, draw_opcode(x, y, n), rand);
            let sprite = s.memory.subrange(
                s.index_register as int,
                s.index_register + n,
            );
            let (vx, vy) = (s.registers[x as int], s.registers[y as int]);
            &&& r1 is Ok
            &&& r2 is Ok
            &&& s1.registers[15] == 0
            &&& s2.screen == s.screen
            &&& s2.registers[15] == (if exists|i: int|
                0 <= i < 2048 && covers(sprite, vx, vy, i) { 1u8 } else { 0u8 })
        }),
{
    let op = draw_opcode(x, y, n);
    lemma_word_digits(0xD, x, y, n);
    assert(decode_spec(op) == Some(Instruction::Draw { x, y, n }));
    let (s1, r1) = apply_opcode(s, op, rand);
    let (s2, r2) = apply_opcode(s1, op, rand);
    let sprite = s.memory.subrange(s.index_register as int, s.index_register + n);
    let (vx, vy) = (s.registers[x as int], s.registers[y as int]);
    assert(s1.registers[x as int] == vx && s1.registers[y as int] == vy);
    assert(s1.memory == s.memory && s1.index_register == s.index_register);
    assert forall|i: int| 0 <= i < 2048 implies s2.screen[i] == s.screen[i] by {
        let b: u8 = s.screen[i];
        assert(b ^ 1u8 ^ 1u8 == b) by (bit_vector);
    }
    assert(s2.screen =~= s.screen);
    if exists|i: int| 0 <= i < 2048 && covers(sprite, vx, vy, i) {
        let i = choose|i: int| 0 <= i < 2048 && covers(sprite, vx, vy, i);
        assert(0u8 ^ 1u8 == 1u8) by (bit_vector);
        assert(s1.screen[i] == 1u8);
    }
}

} // verus!

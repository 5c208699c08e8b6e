//! What each instruction does to a machine, as functions on `MachineState`.

use vstd::prelude::*;
use crate::error::Chip8Error;
use crate::instruction::{decode_spec, Instruction};
use crate::machine::{decremented, KeyWait, MachineState};

verus! {


/// The program counter moved to the next instruction.
pub open spec fn next(s: MachineState) -> MachineState {
    MachineState { program_counter: s.program_counter.wrapping_add(2), ..s }
}

/// The next instruction skipped when `cond` holds, else the usual advance.
pub open spec fn skip_if(s: MachineState, cond: bool) -> MachineState {
    MachineState { program_counter: s.program_counter.wrapping_add(if cond { 4 } else { 2 }), ..s }
}

/// Registers set to `regs`, then the usual advance.
pub open spec fn with_registers(s: MachineState, regs: Seq<u8>) -> MachineState {
    next(MachineState { registers: regs, ..s })
}

/// A sprite whose anchor lies off the grid wraps as a whole; otherwise what
/// runs past the right or bottom edge is clipped.
pub open spec fn wraps(vx: u8, vy: u8) -> bool {
    vx >= 64 || vy >= 32
}

/// The sprite row that lands on display row `r`, if in range.
pub open spec fn row_offset(vx: u8, vy: u8, r: int) -> int {
    if wraps(vx, vy) {
        (r - vy) % 32
    } else {
        r - vy
    }
}

/// The sprite column that lands on display column `c`, if in range.
pub open spec fn col_offset(vx: u8, vy: u8, c: int) -> int {
    if wraps(vx, vy) {
        (c - vx) % 64
    } else {
        c - vx
    }
}

/// Bit `dx` of a sprite row, counted from the most significant bit.
pub open spec fn sprite_bit(row: u8, dx: int) -> bool {
    (row >> ((7 - dx) as u8)) & 1u8 == 1u8
}

/// Whether the sprite anchored at `(vx, vy)` has a set bit on pixel `i`
/// (row `i / 64`, column `i % 64`) of the display.
pub open spec fn covers(sprite: Seq<u8>, vx: u8, vy: u8, i: int) -> bool {
    let dy = row_offset(vx, vy, i / 64);
    let dx = col_offset(vx, vy, i % 64);
    &&& 0 <= dy < sprite.len()
    &&& 0 <= dx < 8
    &&& sprite_bit(sprite[dy], dx)
}

/// The display after XOR-ing the sprite into it.
pub open spec fn drawn(screen: Seq<u8>, sprite: Seq<u8>, vx: u8, vy: u8) -> Seq<u8> {
    Seq::new(
        screen.len(),
        |i: int|
            if covers(sprite, vx, vy, i) {
                screen[i] ^ 1u8
            } else {
                screen[i]
            },
    )
}

/// Whether drawing the sprite turns some lit pixel off.
pub open spec fn collides(screen: Seq<u8>, sprite: Seq<u8>, vx: u8, vy: u8) -> bool {
    exists|i: int| 0 <= i < screen.len() && covers(sprite, vx, vy, i) && screen[i] == 1u8
}

/// Memory with `V0..=VX` written from `base` on.
pub open spec fn stored_registers(memory: Seq<u8>, regs: Seq<u8>, base: int, x: int) -> Seq<u8> {
    Seq::new(
        memory.len(),
        |i: int|
            if base <= i <= base + x {
                regs[i - base]
            } else {
                memory[i]
            },
    )
}

/// Registers with `V0..=VX` read from memory at `base` on.
pub open spec fn loaded_registers(regs: Seq<u8>, memory: Seq<u8>, base: int, x: int) -> Seq<u8> {
    Seq::new(
        regs.len(),
        |i: int|
            if i <= x {
                memory[base + i]
            } else {
                regs[i]
            },
    )
}

/// The hundreds, tens and units digits of `v` written at `base`.
pub open spec fn stored_bcd(memory: Seq<u8>, base: int, v: u8) -> Seq<u8> {
    memory.update(base, (v / 100) as u8).update(base + 1, ((v / 10) % 10) as u8).update(
        base + 2,
        (v % 10) as u8,
    )
}

/// The state after one instruction, and whether it ran. A fault leaves the
/// state as it was. `rand` is the byte that a random instruction draws.
pub open spec fn apply(s: MachineState, ins: Instruction, rand: u8) -> (
    MachineState,
    Result<(), Chip8Error>,
) {
    let regs = s.registers;
    let pc = s.program_counter;
    match ins {
        Instruction::ClearScreen => (
            next(MachineState { screen: Seq::new(2048, |i: int| 0u8), ..s }),
            Ok(()),
        ),
        Instruction::Return => if s.stack_pointer == 0 {
            (s, Err(Chip8Error::StackUnderflow))
        } else {
            let sp = (s.stack_pointer - 1) as u8;
            (
                MachineState {
                    stack_pointer: sp,
                    program_counter: s.stack[sp as int].wrapping_add(2),
                    ..s
                },
                Ok(()),
            )
        },
        Instruction::Jump { addr } => (MachineState { program_counter: addr, ..s }, Ok(())),
        Instruction::Call { addr } => if s.stack_pointer >= 16 {
            (s, Err(Chip8Error::StackOverflow))
        } else {
            (
                MachineState {
                    stack: s.stack.update(s.stack_pointer as int, pc),
                    stack_pointer: (s.stack_pointer + 1) as u8,
                    program_counter: addr,
                    ..s
                },
                Ok(()),
            )
        },
        Instruction::SkipIfEqualImm { x, nn } => (skip_if(s, regs[x as int] == nn), Ok(())),
        Instruction::SkipIfNotEqualImm { x, nn } => (skip_if(s, regs[x as int] != nn), Ok(())),
        Instruction::SkipIfEqualReg { x, y } => (
            skip_if(s, regs[x as int] == regs[y as int]),
            Ok(()),
        ),
        Instruction::SkipIfNotEqualReg { x, y } => (
            skip_if(s, regs[x as int] != regs[y as int]),
            Ok(()),
        ),
        Instruction::LoadImm { x, nn } => (with_registers(s, regs.update(x as int, nn)), Ok(())),
        Instruction::AddImm { x, nn } => (
            with_registers(s, regs.update(x as int, regs[x as int].wrapping_add(nn))),
            Ok(()),
        ),
        Instruction::Copy { x, y } => (
            with_registers(s, regs.update(x as int, regs[y as int])),
            Ok(()),
        ),
        Instruction::Or { x, y } => (
            with_registers(s, regs.update(x as int, regs[x as int] | regs[y as int])),
            Ok(()),
        ),
        Instruction::And { x, y } => (
            with_registers(s, regs.update(x as int, regs[x as int] & regs[y as int])),
            Ok(()),
        ),
        Instruction::Xor { x, y } => (
            with_registers(s, regs.update(x as int, regs[x as int] ^ regs[y as int])),
            Ok(()),
        ),
        Instruction::AddReg { x, y } => {
            let sum = regs[x as int] + regs[y as int];
            (
                with_registers(
                    s,
                    regs.update(15, if sum > 255 { 1u8 } else { 0u8 }).update(
                        x as int,
                        regs[x as int].wrapping_add(regs[y as int]),
                    ),
                ),
                Ok(()),
            )
        },
        Instruction::SubReg { x, y } => {
            let (a, b) = (regs[x as int], regs[y as int]);
            (
                with_registers(
                    s,
                    regs.update(15, if a >= b { 1u8 } else { 0u8 }).update(
                        x as int,
                        a.wrapping_sub(b),
                    ),
                ),
                Ok(()),
            )
        },
        Instruction::SubReversed { x, y } => {
            let (a, b) = (regs[x as int], regs[y as int]);
            (
                with_registers(
                    s,
                    regs.update(15, if b >= a { 1u8 } else { 0u8 }).update(
                        x as int,
                        b.wrapping_sub(a),
                    ),
                ),
                Ok(()),
            )
        },
        Instruction::ShiftRight { x } => {
            let a = regs[x as int];
            (
                with_registers(s, regs.update(x as int, (a / 2) as u8).update(15, (a % 2) as u8)),
                Ok(()),
            )
        },
        Instruction::ShiftLeft { x } => {
            let a = regs[x as int];
            (
                with_registers(
                    s,
                    regs.update(x as int, a.wrapping_mul(2)).update(15, (a / 128) as u8),
                ),
                Ok(()),
            )
        },
        Instruction::SetIndex { addr } => (
            next(MachineState { index_register: addr, ..s }),
            Ok(()),
        ),
        Instruction::SetIndexOffset { addr } => (
            next(MachineState { index_register: addr.wrapping_add(regs[0] as u16), ..s }),
            Ok(()),
        ),
        Instruction::Random { x, nn } => (with_registers(s, regs.update(x as int, rand & nn)), Ok(())),
        Instruction::Draw { x, y, n } => {
            let (vx, vy) = (regs[x as int], regs[y as int]);
            let base = s.index_register as int;
            if base + n > 4096 {
                (s, Err(Chip8Error::MemoryAccessOutOfRange))
            } else {
                let sprite = s.memory.subrange(base, base + n);
                (
                    next(
                        MachineState {
                            screen: drawn(s.screen, sprite, vx, vy),
                            registers: regs.update(
                                15,
                                if collides(s.screen, sprite, vx, vy) { 1u8 } else { 0u8 },
                            ),
                            ..s
                        },
                    ),
                    Ok(()),
                )
            }
        },
        Instruction::SkipIfKey { x } => if regs[x as int] >= 16 {
            (s, Err(Chip8Error::InvalidKeyIndex))
        } else {
            (skip_if(s, s.key_state[regs[x as int] as int]), Ok(()))
        },
        Instruction::SkipIfNotKey { x } => if regs[x as int] >= 16 {
            (s, Err(Chip8Error::InvalidKeyIndex))
        } else {
            (skip_if(s, !s.key_state[regs[x as int] as int]), Ok(()))
        },
        Instruction::ReadDelay { x } => (
            with_registers(s, regs.update(x as int, s.delay_timer)),
            Ok(()),
        ),
        Instruction::WaitKey { x } => (
            MachineState {
                wait: KeyWait::WaitingForKey { register: x },
                key_state: Seq::new(16, |i: int| false),
                ..s
            },
            Ok(()),
        ),
        Instruction::SetDelay { x } => (
            next(MachineState { delay_timer: regs[x as int], ..s }),
            Ok(()),
        ),
        Instruction::SetSound { x } => (
            next(MachineState { sound_timer: regs[x as int], ..s }),
            Ok(()),
        ),
        Instruction::StoreRegisters { x } => {
            let base = s.index_register as int;
            if base + x + 1 > 4096 {
                (s, Err(Chip8Error::MemoryAccessOutOfRange))
            } else {
                (
                    next(MachineState { memory: stored_registers(s.memory, regs, base, x as int), ..s }),
                    Ok(()),
                )
            }
        },
        Instruction::LoadRegisters { x } => {
            let base = s.index_register as int;
            if base + x + 1 > 4096 {
                (s, Err(Chip8Error::MemoryAccessOutOfRange))
            } else {
                (with_registers(s, loaded_registers(regs, s.memory, base, x as int)), Ok(()))
            }
        },
        Instruction::AddIndex { x } => (
            next(
                MachineState {
                    index_register: s.index_register.wrapping_add(regs[x as int] as u16),
                    ..s
                },
            ),
            Ok(()),
        ),
        Instruction::FontAddress { x } => (
            next(MachineState { index_register: ((regs[x as int] % 16) * 5) as u16, ..s }),
            Ok(()),
        ),
        Instruction::StoreBcd { x } => {
            let base = s.index_register as int;
            if base + 3 > 4096 {
                (s, Err(Chip8Error::MemoryAccessOutOfRange))
            } else {
                (
                    next(MachineState { memory: stored_bcd(s.memory, base, regs[x as int]), ..s }),
                    Ok(()),
                )
            }
        },
    }
}

/// The outcome of executing the instruction word `op`: an unknown encoding
/// is a fault that changes nothing.
pub open spec fn apply_opcode(s: MachineState, op: u16, rand: u8) -> (
    MachineState,
    Result<(), Chip8Error>,
) {
    match decode_spec(op) {
        Some(ins) => apply(s, ins, rand),
        None => (s, Err(Chip8Error::UnknownOpcode { opcode: op })),
    }
}

/// The instruction word at the program counter, if both of its bytes lie in
/// memory.
pub open spec fn fetch_spec(s: MachineState) -> Option<u16> {
    let pc = s.program_counter as int;
    if pc + 1 < 4096 {
        Some((s.memory[pc] * 256 + s.memory[pc + 1]) as u16)
    } else {
        None
    }
}

/// One step of the machine: nothing while a key wait is pending; otherwise
/// the instruction at the program counter, or a fault where it cannot be read.
pub open spec fn step(s: MachineState, rand: u8) -> (MachineState, Result<(), Chip8Error>) {
    if s.is_blocked() {
        (s, Ok(()))
    } else {
        match fetch_spec(s) {
            Some(op) => apply_opcode(s, op, rand),
            None => (s, Err(Chip8Error::MemoryAccessOutOfRange)),
        }
    }
}

/// Both timers lowered by one and held at zero.
pub open spec fn tick(s: MachineState) -> MachineState {
    MachineState {
        delay_timer: decremented(s.delay_timer),
        sound_timer: decremented(s.sound_timer),
        ..s
    }
}

/// A pending key wait resolved with `key`: the key goes to the waiting
/// register and execution resumes after the wait instruction. Without a
/// pending wait nothing happens; a key above `0xF` is refused.
pub open spec fn complete_spec(s: MachineState, key: u8) -> (MachineState, Result<(), Chip8Error>) {
    if key > 15 {
        (s, Err(Chip8Error::InvalidKeyIndex))
    } else {
        match s.wait {
            KeyWait::Running => (s, Ok(())),
            KeyWait::WaitingForKey { register } => (
                next(
                    MachineState {
                        registers: s.registers.update(register as int, key),
                        wait: KeyWait::Running,
                        ..s
                    },
                ),
                Ok(()),
            ),
        }
    }
}

/// When a pending key wait is resolved by a keypad edge.
#[derive(Clone, Copy, Debug, PartialEq, Eq, Structural)]
pub enum KeyWaitPolicy {
    /// On a key going down.
    OnPress,
    /// On a key coming up that was seen going down after the wait began.
    OnRelease,
}

/// A keypad edge: key `key` went down (`is_down`) or up, resolving a pending
/// key wait as `policy` says.
pub open spec fn key_event_spec(s: MachineState, key: u8, is_down: bool, policy: KeyWaitPolicy) -> (
    MachineState,
    Result<(), Chip8Error>,
) {
    if key > 15 {
        (s, Err(Chip8Error::InvalidKeyIndex))
    } else {
        let pressed = MachineState { key_state: s.key_state.update(key as int, is_down), ..s };
        match policy {
            KeyWaitPolicy::OnPress => if is_down && s.is_blocked() {
                complete_spec(pressed, key)
            } else {
                (pressed, Ok(()))
            },
            KeyWaitPolicy::OnRelease => if s.is_blocked() && s.key_state[key as int] && !is_down {
                let (done, r) = complete_spec(s, key);
                (MachineState { key_state: done.key_state.update(key as int, is_down), ..done }, r)
            } else {
                (pressed, Ok(()))
            },
        }
    }
}

} // verus!

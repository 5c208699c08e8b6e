use vstd::prelude::*;
use crate::error::Chip8Error;
use crate::font::{font_set, font_spec};
use crate::instruction::{decode, nibble, well_formed, Instruction};
use crate::semantics::{
    apply, apply_opcode, col_offset, collides, complete_spec, covers, drawn, fetch_spec,
    key_event_spec, loaded_registers, row_offset, sprite_bit, step, stored_bcd, stored_registers,
    tick, wraps, KeyWaitPolicy,
};

verus! {

/// Width of the display in pixels.
pub const SCREEN_WIDTH: usize = 64;

/// Height of the display in pixels.
pub const SCREEN_HEIGHT: usize = 32;

/// Whether the machine runs or waits for a key to be supplied.
#[derive(Clone, Copy, Debug, PartialEq, Eq, Structural)]
pub enum KeyWait {
    Running,
    /// A key-wait instruction is pending; the key goes to `register`.
    WaitingForKey { register: u8 },
}

/// The state of a machine as mathematical values.
pub struct MachineState {
    pub memory: Seq<u8>,
    pub registers: Seq<u8>,
    pub stack: Seq<u16>,
    pub stack_pointer: u8,
    pub screen: Seq<u8>,
    pub index_register: u16,
    pub program_counter: u16,
    pub delay_timer: u8,
    pub sound_timer: u8,
    pub key_state: Seq<bool>,
    pub wait: KeyWait,
}

/// A CHIP-8 machine: memory, registers, call stack, display, keypad and timers.
pub struct VirtualMachine {
    memory: [u8; 4096],
    registers: [u8; 16],
    stack: [u16; 16],
    stack_pointer: u8,
    screen: [u8; 2048],
    index_register: u16,
    program_counter: u16,
    delay_timer: u8,
    sound_timer: u8,
    /// One flag per hexadecimal key, set while the key is held down.
    pub key_state: [bool; 16],
    wait: KeyWait,
}

impl View for VirtualMachine {
    type V = MachineState;

    closed spec fn view(&self) -> MachineState {
        MachineState {
            memory: self.memory@,
            registers: self.registers@,
            stack: self.stack@,
            stack_pointer: self.stack_pointer,
            screen: self.screen@,
            index_register: self.index_register,
            program_counter: self.program_counter,
            delay_timer: self.delay_timer,
            sound_timer: self.sound_timer,
            key_state: self.key_state@,
            wait: self.wait,
        }
    }
}

impl MachineState {
    /// The call stack never holds more than its sixteen slots, and a pending
    /// key wait names a register.
    pub open spec fn wf(self) -> bool {
        &&& self.memory.len() == 4096
        &&& self.registers.len() == 16
        &&& self.stack.len() == 16
        &&& self.screen.len() == 2048
        &&& self.key_state.len() == 16
        &&& self.stack_pointer <= 16
        &&& (self.wait matches KeyWait::WaitingForKey { register } ==> register < 16)
    }

    /// Whether instruction execution is suspended by a pending key wait.
    pub open spec fn is_blocked(self) -> bool {
        self.wait is WaitingForKey
    }
}

/// Memory right after construction: the font at address zero, zeros elsewhere.
pub open spec fn initial_memory() -> Seq<u8> {
    Seq::new(4096, |i: int| if i < 80 { font_spec()[i] } else { 0u8 })
}

/// Memory after copying `rom` to the program area; bytes that do not fit
/// are dropped and memory outside the copy keeps its contents.
pub open spec fn loaded_memory(memory: Seq<u8>, rom: Seq<u8>) -> Seq<u8> {
    Seq::new(
        memory.len(),
        |i: int|
            if 0x200 <= i < 0x200 + rom.len() {
                rom[i - 0x200]
            } else {
                memory[i]
            },
    )
}

/// A counter decremented by one and held at zero.
pub open spec fn decremented(t: u8) -> u8 {
    if t == 0 {
        0
    } else {
        (t - 1) as u8
    }
}

impl VirtualMachine {
    pub open spec fn wf(&self) -> bool {
        self@.wf()
    }

    /// A fresh machine: font loaded at address zero, program counter at
    /// `0x200`, everything else cleared.
    pub fn new() -> (r: VirtualMachine)
        ensures
            r.wf(),
            r@ == (MachineState {
                memory: initial_memory(),
                registers: Seq::new(16, |i: int| 0u8),
                stack: Seq::new(16, |i: int| 0u16),
                stack_pointer: 0,
                screen: Seq::new(2048, |i: int| 0u8),
                index_register: 0,
                program_counter: 0x200,
                delay_timer: 0,
                sound_timer: 0,
                key_state: Seq::new(16, |i: int| false),
                wait: KeyWait::Running,
            }),
    {
        let font = font_set();
        let mut memory = [0u8; 4096];
        let mut i: usize = 0;
        while i < 80
            invariant
                i <= 80,
                font@ == font_spec(),
                memory@.len() == 4096,
                forall|j: int| 0 <= j < i ==> memory@[j] == font_spec()[j],
                forall|j: int| i <= j < 4096 ==> memory@[j] == 0u8,
            decreases 80 - i,
        {
            memory[i] = font[i];
            i = i + 1;
        }
        let vm = VirtualMachine {
            memory,
            registers: [0u8; 16],
            stack: [0u16; 16],
            stack_pointer: 0,
            screen: [0u8; 2048],
            index_register: 0,
            program_counter: 0x200,
            delay_timer: 0,
            sound_timer: 0,
            key_state: [false; 16],
            wait: KeyWait::Running,
        };
        assert(vm.memory@ =~= initial_memory());
        assert(vm.registers@ =~= Seq::new(16, |i: int| 0u8));
        assert(vm.stack@ =~= Seq::new(16, |i: int| 0u16));
        assert(vm.screen@ =~= Seq::new(2048, |i: int| 0u8));
        assert(vm.key_state@ =~= Seq::new(16, |i: int| false));
        vm
    }

    /// Copies `rom` into memory from `0x200` on, dropping what does not fit
    /// below `4096`. Memory is not cleared first, and registers, stack and
    /// timers are kept: reloading a shorter program leaves the tail of the
    /// previous one in place.
    pub fn load_rom(&mut self, rom: &[u8])
        requires
            old(self).wf(),
        ensures
            final(self).wf(),
            final(self)@ == (MachineState {
                memory: loaded_memory(
                    old(self)@.memory,
                    if rom@.len() <= 3584 { rom@ } else { rom@.subrange(0, 3584) },
                ),
                ..old(self)@
            }),
    {
        let ghost kept = if rom@.len() <= 3584 { rom@ } else { rom@.subrange(0, 3584) };
        let count: usize = if rom.len() <= 3584 { rom.len() } else { 3584 };
        let mut i: usize = 0;
        while i < count
            invariant
                i <= count,
                count == kept.len(),
                count <= rom@.len(),
                count <= 3584,
                forall|j: int| 0 <= j < count ==> kept[j] == rom@[j],
                self.wf(),
                self@ == (MachineState { memory: self@.memory, ..old(self)@ }),
                forall|j: int|
                    0 <= j < 4096 ==> self.memory@[j] == (if 0x200 <= j < 0x200 + i {
                        kept[j - 0x200]
                    } else {
                        old(self).memory@[j]
                    }),
            decreases count - i,
        {
            self.memory[0x200 + i] = rom[i];
            i = i + 1;
        }
        assert(self.memory@ =~= loaded_memory(old(self)@.memory, kept));
    }

    /// Lowers both timers by one, holding each at zero.
    pub fn decrement_timers(&mut self)
        requires
            old(self).wf(),
        ensures
            final(self).wf(),
            final(self)@ == tick(old(self)@),
    {
        self.sound_timer = self.sound_timer.saturating_sub(1);
        self.delay_timer = self.delay_timer.saturating_sub(1);
    }
}

/// Pixels of the sprite that the drawing loop has reached after `rows` full
/// rows and `cols` columns of the next one.
spec fn covers_upto(sprite: Seq<u8>, vx: u8, vy: u8, i: int, rows: int, cols: int) -> bool {
    let dy = row_offset(vx, vy, i / 64);
    let dx = col_offset(vx, vy, i % 64);
    covers(sprite, vx, vy, i) && (dy < rows || (dy == rows && dx < cols))
}

spec fn drawn_upto(
    screen: Seq<u8>,
    sprite: Seq<u8>,
    vx: u8,
    vy: u8,
    rows: int,
    cols: int,
) -> Seq<u8> {
    Seq::new(
        screen.len(),
        |i: int|
            if covers_upto(sprite, vx, vy, i, rows, cols) {
                screen[i] ^ 1u8
            } else {
                screen[i]
            },
    )
}

spec fn collides_upto(
    screen: Seq<u8>,
    sprite: Seq<u8>,
    vx: u8,
    vy: u8,
    rows: int,
    cols: int,
) -> bool {
    exists|i: int|
        0 <= i < screen.len() && covers_upto(sprite, vx, vy, i, rows, cols) && screen[i] == 1u8
}

proof fn lemma_bit(b: u8, dx: u8)
    requires
        dx < 8,
    ensures
        (b & (0x80u8 >> dx) != 0) == sprite_bit(b, dx as int),
{
    assert((b & (0x80u8 >> dx) != 0) == ((b >> (7 - dx) as u8) & 1u8 == 1u8)) by (bit_vector)
        requires
            dx < 8,
    ;
}

proof fn lemma_wrapped_row(r: int, vy: int, dy: int)
    requires
        0 <= r < 32,
        0 <= vy,
        0 <= dy < 32,
        (r - vy) % 32 == dy,
    ensures
        r == (vy + dy) % 32,
{
}

proof fn lemma_wrapped_col(c: int, vx: int, dx: int)
    requires
        0 <= c < 64,
        0 <= vx,
        0 <= dx < 64,
        (c - vx) % 64 == dx,
    ensures
        c == (vx + dx) % 64,
{
}

proof fn lemma_pixel_index(i: int)
    requires
        0 <= i < 2048,
    ensures
        i == (i / 64) * 64 + i % 64,
        0 <= i / 64 < 32,
        0 <= i % 64 < 64,
{
}

/// Pixel `row * 64 + col` is the one the loop reaches at sprite offset
/// `(dy, dx)`, and no other pixel has those offsets.
proof fn lemma_target(
    sprite: Seq<u8>,
    vx: u8,
    vy: u8,
    dy: int,
    dx: int,
    row: int,
    col: int,
)
    requires
        0 <= dy < 16,
        0 <= dx < 8,
        0 <= row < 32,
        0 <= col < 64,
        wraps(vx, vy) ==> row == (vy + dy) % 32 && col == (vx + dx) % 64,
        !wraps(vx, vy) ==> row == vy + dy && col == vx + dx,
    ensures
        row_offset(vx, vy, (row * 64 + col) / 64) == dy,
        col_offset(vx, vy, (row * 64 + col) % 64) == dx,
        forall|i: int|
            0 <= i < 2048 ==> (#[trigger] covers_upto(sprite, vx, vy, i, dy, dx + 1) == (
            covers_upto(sprite, vx, vy, i, dy, dx) || (i == row * 64 + col && covers(
                sprite,
                vx,
                vy,
                i,
            )))),
{
    assert((row * 64 + col) / 64 == row);
    assert((row * 64 + col) % 64 == col);
    assert forall|i: int| 0 <= i < 2048 implies (#[trigger] covers_upto(
        sprite,
        vx,
        vy,
        i,
        dy,
        dx + 1,
    ) == (covers_upto(sprite, vx, vy, i, dy, dx) || (i == row * 64 + col && covers(
        sprite,
        vx,
        vy,
        i,
    )))) by {
        lemma_pixel_index(i);
        let r = i / 64;
        let c = i % 64;
        if row_offset(vx, vy, r) == dy && col_offset(vx, vy, c) == dx {
            if wraps(vx, vy) {
                lemma_wrapped_row(r, vy as int, dy);
                lemma_wrapped_col(c, vx as int, dx);
            }
            assert(r == row && c == col);
        }
    }
}

impl VirtualMachine {
    /// `DXYN`: XORs the `n`-row sprite at the index register into the display
    /// with its corner at `(VX, VY)`, and sets `VF` when a lit pixel goes dark.
    fn draw_sprite(&mut self, x: u8, y: u8, n: u8) -> (r: Result<(), Chip8Error>)
        requires
            old(self).wf(),
            x < 16,
            y < 16,
            n < 16,
        ensures
            final(self).wf(),
            (final(self)@, r) == apply(old(self)@, Instruction::Draw { x, y, n }, 0),
    {
        let vx = self.registers[x as usize];
        let vy = self.registers[y as usize];
        let base = self.index_register as usize;
        let height = n as usize;
        if base + height > 4096 {
            return Err(Chip8Error::MemoryAccessOutOfRange);
        }
        let ghost sprite = self.memory@.subrange(base as int, base + height);
        let ghost screen0 = self.screen@;
        let wrap = vx >= 64 || vy >= 32;
        let rows: usize = if wrap || vy as usize + height <= 32 {
            height
        } else {
            32 - vy as usize
        };
        let cols: usize = if wrap || vx as usize + 8 <= 64 {
            8
        } else {
            64 - vx as usize
        };
        let mut collision = false;
        let mut dy: usize = 0;
        while dy < rows
            invariant
                wrap == wraps(vx, vy),
                rows <= height < 16,
                cols <= 8,
                !wrap ==> vy + rows <= 32 && vx + cols <= 64,
                !wrap ==> (rows == height || vy + rows == 32),
                !wrap ==> (cols == 8 || vx + cols == 64),
                wrap ==> rows == height && cols == 8,
                base + height <= 4096,
                sprite.len() == height,
                x < 16,
                y < 16,
                sprite == self.memory@.subrange(base as int, base + height),
                vx == self.registers@[x as int],
                vy == self.registers@[y as int],
                0 <= dy <= rows,
                self@ == (MachineState { screen: self@.screen, ..old(self)@ }),
                self.wf(),
                screen0 == old(self)@.screen,
                self.screen@ == drawn_upto(screen0, sprite, vx, vy, dy as int, 0),
                collision == collides_upto(screen0, sprite, vx, vy, dy as int, 0),
            decreases rows - dy,
        {
            let byte = self.memory[base + dy];
            let row: usize = if wrap {
                (vy as usize + dy) % 32
            } else {
                vy as usize + dy
            };
            let mut dx: usize = 0;
            while dx < cols
                invariant
                    wrap == wraps(vx, vy),
                    rows <= height < 16,
                    cols <= 8,
                    !wrap ==> vy + rows <= 32 && vx + cols <= 64,
                    !wrap ==> (cols == 8 || vx + cols == 64),
                    wrap ==> rows == height && cols == 8,
                    base + height <= 4096,
                    sprite.len() == height,
                    x < 16,
                    y < 16,
                    0 <= dy < rows,
                    byte == sprite[dy as int],
                    wrap ==> row == (vy + dy) % 32,
                    !wrap ==> row == vy + dy,
                    row < 32,
                    0 <= dx <= cols,
                    self@ == (MachineState { screen: self@.screen, ..old(self)@ }),
                    self.wf(),
                    screen0 == old(self)@.screen,
                    self.screen@ == drawn_upto(screen0, sprite, vx, vy, dy as int, dx as int),
                    collision == collides_upto(screen0, sprite, vx, vy, dy as int, dx as int),
                decreases cols - dx,
            {
                let col: usize = if wrap {
                    (vx as usize + dx) % 64
                } else {
                    vx as usize + dx
                };
                let idx = row * 64 + col;
                let ghost before = self.screen@;
                proof {
                    lemma_target(sprite, vx, vy, dy as int, dx as int, row as int, col as int);
                    lemma_bit(byte, dx as u8);
                }
                if byte & (0x80u8 >> dx as u8) != 0 {
                    let old_pixel = self.screen[idx];
                    self.screen[idx] = old_pixel ^ 1;
                    if old_pixel == 1 {
                        collision = true;
                    }
                }
                proof {
                    assert(covers(sprite, vx, vy, idx as int) == (byte & (0x80u8 >> dx as u8)
                        != 0));
                    assert(!covers_upto(sprite, vx, vy, idx as int, dy as int, dx as int));
                    assert(before[idx as int] == screen0[idx as int]);
                    assert(self.screen@ =~= drawn_upto(
                        screen0,
                        sprite,
                        vx,
                        vy,
                        dy as int,
                        dx + 1,
                    ));
                    if collides_upto(screen0, sprite, vx, vy, dy as int, dx + 1) {
                        let i = choose|i: int|
                            0 <= i < screen0.len() && covers_upto(
                                sprite,
                                vx,
                                vy,
                                i,
                                dy as int,
                                dx + 1,
                            ) && screen0[i] == 1u8;
                        if i != idx {
                            assert(covers_upto(sprite, vx, vy, i, dy as int, dx as int));
                        }
                    }
                    if collides_upto(screen0, sprite, vx, vy, dy as int, dx as int) {
                        let i = choose|i: int|
                            0 <= i < screen0.len() && covers_upto(
                                sprite,
                                vx,
                                vy,
                                i,
                                dy as int,
                                dx as int,
                            ) && screen0[i] == 1u8;
                        assert(covers_upto(sprite, vx, vy, i, dy as int, dx + 1));
                    }
                    if collision {
                        assert(collides_upto(screen0, sprite, vx, vy, dy as int, dx + 1));
                    }
                }
                dx = dx + 1;
            }
            proof {
                assert forall|i: int| 0 <= i < 2048 implies covers_upto(
                    sprite,
                    vx,
                    vy,
                    i,
                    dy as int,
                    cols as int,
                ) == covers_upto(sprite, vx, vy, i, dy + 1, 0) by {}
                assert(self.screen@ =~= drawn_upto(screen0, sprite, vx, vy, dy + 1, 0));
                if collision {
                    let i = choose|i: int|
                        0 <= i < screen0.len() && covers_upto(
                            sprite,
                            vx,
                            vy,
                            i,
                            dy as int,
                            cols as int,
                        ) && screen0[i] == 1u8;
                    assert(covers_upto(sprite, vx, vy, i, dy + 1, 0));
                }
                if collides_upto(screen0, sprite, vx, vy, dy + 1, 0) {
                    let i = choose|i: int|
                        0 <= i < screen0.len() && covers_upto(sprite, vx, vy, i, dy + 1, 0)
                            && screen0[i] == 1u8;
                    assert(covers_upto(sprite, vx, vy, i, dy as int, cols as int));
                }
            }
            dy = dy + 1;
        }
        proof {
            assert forall|i: int| 0 <= i < 2048 implies covers_upto(
                sprite,
                vx,
                vy,
                i,
                rows as int,
                0,
            ) == covers(sprite, vx, vy, i) by {}
            assert(self.screen@ =~= drawn(screen0, sprite, vx, vy));
            if collision {
                let i = choose|i: int|
                    0 <= i < screen0.len() && covers_upto(sprite, vx, vy, i, rows as int, 0)
                        && screen0[i] == 1u8;
                assert(covers(sprite, vx, vy, i));
            }
            if collides(screen0, sprite, vx, vy) {
                let i = choose|i: int|
                    0 <= i < screen0.len() && covers(sprite, vx, vy, i) && screen0[i] == 1u8;
                assert(covers_upto(sprite, vx, vy, i, rows as int, 0));
            }
        }
        self.registers[15] = if collision {
            1
        } else {
            0
        };
        self.program_counter = self.program_counter.wrapping_add(2);
        Ok(())
    }
}

impl VirtualMachine {
    /// `FX55`: copies `V0..=VX` to memory from the index register on.
    fn store_registers(&mut self, x: u8) -> (r: Result<(), Chip8Error>)
        requires
            old(self).wf(),
            x < 16,
        ensures
            final(self).wf(),
            (final(self)@, r) == apply(old(self)@, Instruction::StoreRegisters { x }, 0),
    {
        let base = self.index_register as usize;
        let last = x as usize;
        if base + last + 1 > 4096 {
            return Err(Chip8Error::MemoryAccessOutOfRange);
        }
        let mut k: usize = 0;
        while k <= last
            invariant
                base + last + 1 <= 4096,
                last < 16,
                k <= last + 1,
                self.wf(),
                self@ == (MachineState { memory: self@.memory, ..old(self)@ }),
                self.memory@ =~= stored_registers(
                    old(self)@.memory,
                    old(self)@.registers,
                    base as int,
                    k - 1,
                ),
            decreases last + 1 - k,
        {
            self.memory[base + k] = self.registers[k];
            k = k + 1;
        }
        self.program_counter = self.program_counter.wrapping_add(2);
        Ok(())
    }

    /// `FX65`: fills `V0..=VX` from memory at the index register on.
    fn load_registers(&mut self, x: u8) -> (r: Result<(), Chip8Error>)
        requires
            old(self).wf(),
            x < 16,
        ensures
            final(self).wf(),
            (final(self)@, r) == apply(old(self)@, Instruction::LoadRegisters { x }, 0),
    {
        let base = self.index_register as usize;
        let last = x as usize;
        if base + last + 1 > 4096 {
            return Err(Chip8Error::MemoryAccessOutOfRange);
        }
        let mut k: usize = 0;
        while k <= last
            invariant
                base + last + 1 <= 4096,
                last < 16,
                k <= last + 1,
                self.wf(),
                self@ == (MachineState { registers: self@.registers, ..old(self)@ }),
                self.registers@ =~= loaded_registers(
                    old(self)@.registers,
                    old(self)@.memory,
                    base as int,
                    k - 1,
                ),
            decreases last + 1 - k,
        {
            self.registers[k] = self.memory[base + k];
            k = k + 1;
        }
        self.program_counter = self.program_counter.wrapping_add(2);
        Ok(())
    }

    /// `FX33`: writes the decimal digits of `VX` at the index register.
    fn store_bcd(&mut self, x: u8) -> (r: Result<(), Chip8Error>)
        requires
            old(self).wf(),
            x < 16,
        ensures
            final(self).wf(),
            (final(self)@, r) == apply(old(self)@, Instruction::StoreBcd { x }, 0),
    {
        let base = self.index_register as usize;
        if base + 3 > 4096 {
            return Err(Chip8Error::MemoryAccessOutOfRange);
        }
        let val = self.registers[x as usize];
        self.memory[base] = val / 100;
        self.memory[base + 1] = (val / 10) % 10;
        self.memory[base + 2] = val % 10;
        self.program_counter = self.program_counter.wrapping_add(2);
        Ok(())
    }

    /// Empties the keypad: every key reads as up.
    fn clear_key_state(&mut self)
        requires
            old(self).wf(),
        ensures
            final(self).wf(),
            final(self)@ == (MachineState {
                key_state: Seq::new(16, |i: int| false),
                ..old(self)@
            }),
    {
        self.key_state = [false; 16];
        assert(self.key_state@ =~= Seq::new(16, |i: int| false));
    }
}

impl VirtualMachine {
    /// Memory offset of the built-in glyph for the hexadecimal digit
    /// `sprite_id`; glyphs are five bytes apart from address zero.
    pub fn get_sprite_address(sprite_id: u8) -> (r: u8)
        requires
            sprite_id <= 0x0F,
        ensures
            r == sprite_id * 5,
    {
        sprite_id * 5
    }

    /// Display clearing, jumps, calls, returns, skips and the key wait.
    fn execute_flow(&mut self, ins: Instruction, random_byte: u8) -> (r: Result<(), Chip8Error>)
        requires
            old(self).wf(),
            well_formed(ins),
            ins is ClearScreen || ins is Return || ins is Jump || ins is Call || ins is SkipIfEqualImm || ins is SkipIfNotEqualImm || ins is SkipIfEqualReg || ins is SkipIfNotEqualReg || ins is SkipIfKey || ins is SkipIfNotKey || ins is WaitKey,
        ensures
            final(self).wf(),
            (final(self)@, r) == apply(old(self)@, ins, random_byte),
    {
        match ins {
            Instruction::ClearScreen => {
                self.screen = [0u8; 2048];
                assert(self.screen@ =~= Seq::new(2048, |i: int| 0u8));
                self.program_counter = self.program_counter.wrapping_add(2);
            },
            Instruction::Return => {
                if self.stack_pointer == 0 {
                    return Err(Chip8Error::StackUnderflow);
                }
                self.stack_pointer = self.stack_pointer - 1;
                self.program_counter = self.stack[self.stack_pointer as usize].wrapping_add(2);
            },
            Instruction::Jump { addr } => {
                self.program_counter = addr;
            },
            Instruction::Call { addr } => {
                if self.stack_pointer >= 16 {
                    return Err(Chip8Error::StackOverflow);
                }
                self.stack[self.stack_pointer as usize] = self.program_counter;
                self.stack_pointer = self.stack_pointer + 1;
                self.program_counter = addr;
            },
            Instruction::SkipIfEqualImm { x, nn } => {
                let step: u16 = if self.registers[x as usize] == nn {
                    4
                } else {
                    2
                };
                self.program_counter = self.program_counter.wrapping_add(step);
            },
            Instruction::SkipIfNotEqualImm { x, nn } => {
                let step: u16 = if self.registers[x as usize] != nn {
                    4
                } else {
                    2
                };
                self.program_counter = self.program_counter.wrapping_add(step);
            },
            Instruction::SkipIfEqualReg { x, y } => {
                let step: u16 = if self.registers[x as usize] == self.registers[y as usize] {
                    4
                } else {
                    2
                };
                self.program_counter = self.program_counter.wrapping_add(step);
            },
            Instruction::SkipIfNotEqualReg { x, y } => {
                let step: u16 = if self.registers[x as usize] != self.registers[y as usize] {
                    4
                } else {
                    2
                };
                self.program_counter = self.program_counter.wrapping_add(step);
            },
            Instruction::SkipIfKey { x } => {
                let key = self.registers[x as usize];
                if key >= 16 {
                    return Err(Chip8Error::InvalidKeyIndex);
                }
                let step: u16 = if self.key_state[key as usize] {
                    4
                } else {
                    2
                };
                self.program_counter = self.program_counter.wrapping_add(step);
            },
            Instruction::SkipIfNotKey { x } => {
                let key = self.registers[x as usize];
                if key >= 16 {
                    return Err(Chip8Error::InvalidKeyIndex);
                }
                let step: u16 = if !self.key_state[key as usize] {
                    4
                } else {
                    2
                };
                self.program_counter = self.program_counter.wrapping_add(step);
            },
            Instruction::WaitKey { x } => {
                self.wait = KeyWait::WaitingForKey { register: x };
                self.clear_key_state();
            },
            _ => {},
        }
        Ok(())
    }

    /// Register loads and the arithmetic and logic family.
    fn execute_alu(&mut self, ins: Instruction, random_byte: u8) -> (r: Result<(), Chip8Error>)
        requires
            old(self).wf(),
            well_formed(ins),
            ins is LoadImm || ins is AddImm || ins is Copy || ins is Or || ins is And || ins is Xor || ins is AddReg || ins is SubReg || ins is ShiftRight || ins is SubReversed || ins is ShiftLeft || ins is Random,
        ensures
            final(self).wf(),
            (final(self)@, r) == apply(old(self)@, ins, random_byte),
    {
        match ins {
            Instruction::LoadImm { x, nn } => {
                self.registers[x as usize] = nn;
                self.program_counter = self.program_counter.wrapping_add(2);
            },
            Instruction::AddImm { x, nn } => {
                self.registers[x as usize] = self.registers[x as usize].wrapping_add(nn);
                self.program_counter = self.program_counter.wrapping_add(2);
            },
            Instruction::Copy { x, y } => {
                self.registers[x as usize] = self.registers[y as usize];
                self.program_counter = self.program_counter.wrapping_add(2);
            },
            Instruction::Or { x, y } => {
                let vx = self.registers[x as usize];
                self.registers[x as usize] = vx | self.registers[y as usize];
                self.program_counter = self.program_counter.wrapping_add(2);
            },
            Instruction::And { x, y } => {
                let vx = self.registers[x as usize];
                self.registers[x as usize] = vx & self.registers[y as usize];
                self.program_counter = self.program_counter.wrapping_add(2);
            },
            Instruction::Xor { x, y } => {
                let vx = self.registers[x as usize];
                self.registers[x as usize] = vx ^ self.registers[y as usize];
                self.program_counter = self.program_counter.wrapping_add(2);
            },
            Instruction::AddReg { x, y } => {
                let vx = self.registers[x as usize];
                let vy = self.registers[y as usize];
                self.registers[15] = if vx as u16 + vy as u16 > 255 {
                    1
                } else {
                    0
                };
                self.registers[x as usize] = vx.wrapping_add(vy);
                self.program_counter = self.program_counter.wrapping_add(2);
            },
            Instruction::SubReg { x, y } => {
                let vx = self.registers[x as usize];
                let vy = self.registers[y as usize];
                self.registers[15] = if vx >= vy {
                    1
                } else {
                    0
                };
                self.registers[x as usize] = vx.wrapping_sub(vy);
                self.program_counter = self.program_counter.wrapping_add(2);
            },
            Instruction::ShiftRight { x } => {
                let vx = self.registers[x as usize];
                self.registers[x as usize] = vx / 2;
                self.registers[15] = vx % 2;
                self.program_counter = self.program_counter.wrapping_add(2);
            },
            Instruction::SubReversed { x, y } => {
                let vx = self.registers[x as usize];
                let vy = self.registers[y as usize];
                self.registers[15] = if vy >= vx {
                    1
                } else {
                    0
                };
                self.registers[x as usize] = vy.wrapping_sub(vx);
                self.program_counter = self.program_counter.wrapping_add(2);
            },
            Instruction::ShiftLeft { x } => {
                let vx = self.registers[x as usize];
                self.registers[x as usize] = vx.wrapping_mul(2);
                self.registers[15] = vx / 128;
                self.program_counter = self.program_counter.wrapping_add(2);
            },
            Instruction::Random { x, nn } => {
                self.registers[x as usize] = random_byte & nn;
                self.program_counter = self.program_counter.wrapping_add(2);
            },
            _ => {},
        }
        Ok(())
    }

    /// Index register and timer transfers.
    fn execute_misc(&mut self, ins: Instruction, random_byte: u8) -> (r: Result<(), Chip8Error>)
        requires
            old(self).wf(),
            well_formed(ins),
            ins is SetIndex || ins is SetIndexOffset || ins is AddIndex || ins is FontAddress || ins is ReadDelay || ins is SetDelay || ins is SetSound,
        ensures
            final(self).wf(),
            (final(self)@, r) == apply(old(self)@, ins, random_byte),
    {
        match ins {
            Instruction::SetIndex { addr } => {
                self.index_register = addr;
                self.program_counter = self.program_counter.wrapping_add(2);
            },
            Instruction::SetIndexOffset { addr } => {
                self.index_register = addr.wrapping_add(self.registers[0] as u16);
                self.program_counter = self.program_counter.wrapping_add(2);
            },
            Instruction::AddIndex { x } => {
                self.index_register = self.index_register.wrapping_add(
                    self.registers[x as usize] as u16,
                );
                self.program_counter = self.program_counter.wrapping_add(2);
            },
            Instruction::FontAddress { x } => {
                let digit = self.registers[x as usize] % 16;
                self.index_register = Self::get_sprite_address(digit) as u16;
                self.program_counter = self.program_counter.wrapping_add(2);
            },
            Instruction::ReadDelay { x } => {
                self.registers[x as usize] = self.delay_timer;
                self.program_counter = self.program_counter.wrapping_add(2);
            },
            Instruction::SetDelay { x } => {
                self.delay_timer = self.registers[x as usize];
                self.program_counter = self.program_counter.wrapping_add(2);
            },
            Instruction::SetSound { x } => {
                self.sound_timer = self.registers[x as usize];
                self.program_counter = self.program_counter.wrapping_add(2);
            },
            _ => {},
        }
        Ok(())
    }

    /// Runs one decoded instruction; `random_byte` is what a `CXNN` draws.
    fn execute(&mut self, ins: Instruction, random_byte: u8) -> (r: Result<(), Chip8Error>)
        requires
            old(self).wf(),
            well_formed(ins),
        ensures
            final(self).wf(),
            (final(self)@, r) == apply(old(self)@, ins, random_byte),
    {
        match ins {
            Instruction::Draw { x, y, n } => self.draw_sprite(x, y, n),
            Instruction::StoreRegisters { x } => self.store_registers(x),
            Instruction::LoadRegisters { x } => self.load_registers(x),
            Instruction::StoreBcd { x } => self.store_bcd(x),
            Instruction::ClearScreen | Instruction::Return | Instruction::Jump { .. }
            | Instruction::Call { .. } | Instruction::SkipIfEqualImm { .. }
            | Instruction::SkipIfNotEqualImm { .. } | Instruction::SkipIfEqualReg { .. }
            | Instruction::SkipIfNotEqualReg { .. } | Instruction::SkipIfKey { .. }
            | Instruction::SkipIfNotKey { .. } | Instruction::WaitKey { .. } => self.execute_flow(
                ins,
                random_byte,
            ),
            Instruction::SetIndex { .. } | Instruction::SetIndexOffset { .. }
            | Instruction::AddIndex { .. } | Instruction::FontAddress { .. }
            | Instruction::ReadDelay { .. } | Instruction::SetDelay { .. }
            | Instruction::SetSound { .. } => self.execute_misc(ins, random_byte),
            _ => self.execute_alu(ins, random_byte),
        }
    }
}

/// Relies on `fastrand::u8` over the full range `..`: it returns some byte
/// and does not panic. Nothing is promised about which byte.
#[verifier::external_body]
fn random_byte() -> (r: u8) {
    fastrand::u8(..)
}

impl VirtualMachine {
    /// The register named by the second hexadecimal digit of `opcode`.
    pub fn get_register_x(opcode: u16) -> (r: usize)
        ensures
            r == nibble(opcode, 1),
            r < 16,
    {
        assert(((opcode & 0x0F00u16) >> 8u16) == (opcode / 0x100) % 0x10) by (bit_vector);
        ((opcode & 0x0F00) >> 8) as usize
    }

    /// The register named by the third hexadecimal digit of `opcode`.
    pub fn get_register_y(opcode: u16) -> (r: usize)
        ensures
            r == nibble(opcode, 2),
            r < 16,
    {
        assert(((opcode & 0x00F0u16) >> 4u16) == (opcode / 0x10) % 0x10) by (bit_vector);
        ((opcode & 0x00F0) >> 4) as usize
    }

    /// The big-endian instruction word at the program counter, or `None`
    /// where its second byte would lie past the end of memory.
    fn fetch_opcode(&self) -> (r: Option<u16>)
        requires
            self.wf(),
        ensures
            r == fetch_spec(self@),
    {
        let pc = self.program_counter as usize;
        if pc + 1 >= 4096 {
            return None;
        }
        Some(self.memory[pc] as u16 * 256 + self.memory[pc + 1] as u16)
    }

    /// Decodes and runs the instruction word `opcode`. `random_byte` is the
    /// byte that a `CXNN` masks; other instructions ignore it. Every
    /// instruction moves the program counter itself. On a fault the machine
    /// is left as it was.
    pub fn execute_opcode(&mut self, opcode: u16, random_byte: u8) -> (r: Result<(), Chip8Error>)
        requires
            old(self).wf(),
        ensures
            final(self).wf(),
            (final(self)@, r) == apply_opcode(old(self)@, opcode, random_byte),
    {
        match decode(opcode) {
            Ok(ins) => self.execute(ins, random_byte),
            Err(e) => Err(e),
        }
    }

    /// Runs the instruction at the program counter, unless a key wait is
    /// pending, in which case nothing happens. A random instruction draws
    /// its byte from `fastrand`.
    pub fn execute_instruction(&mut self) -> (r: Result<(), Chip8Error>)
        requires
            old(self).wf(),
        ensures
            final(self).wf(),
            old(self)@.is_blocked() ==> final(self)@ == old(self)@ && r is Ok,
            exists|b: u8| (final(self)@, r) == step(old(self)@, b),
    {
        if self.is_blocked() {
            assert((self@, Ok::<(), Chip8Error>(())) == step(self@, 0));
            return Ok(());
        }
        match self.fetch_opcode() {
            None => {
                assert((self@, Err::<(), Chip8Error>(Chip8Error::MemoryAccessOutOfRange)) == step(
                    self@,
                    0,
                ));
                Err(Chip8Error::MemoryAccessOutOfRange)
            },
            Some(opcode) => {
                let b = if opcode >> 12 == 0xC {
                    random_byte()
                } else {
                    0
                };
                let r = self.execute_opcode(opcode, b);
                assert((self@, r) == step(old(self)@, b));
                r
            },
        }
    }

    /// One instruction followed by one timer tick, for callers that run
    /// the timers at the instruction rate. Both are skipped while a key wait
    /// is pending; on a fault the timers are not touched either.
    pub fn run_cyle(&mut self) -> (r: Result<(), Chip8Error>)
        requires
            old(self).wf(),
        ensures
            final(self).wf(),
            old(self)@.is_blocked() ==> final(self)@ == old(self)@ && r is Ok,
            exists|b: u8|
                {
                    let (s, res) = #[trigger] step(old(self)@, b);
                    r == res && final(self)@ == (if res is Ok && !old(self)@.is_blocked() {
                        tick(s)
                    } else {
                        s
                    })
                },
    {
        if self.is_blocked() {
            assert((self@, Ok::<(), Chip8Error>(())) == step(self@, 0));
            return Ok(());
        }
        let r = self.execute_instruction();
        if r.is_ok() {
            self.decrement_timers();
        }
        r
    }

    /// Resolves a pending key wait with `key_value`: the key goes to the
    /// register the wait instruction named, the machine resumes and the
    /// program counter moves past that instruction. Without a pending wait
    /// this does nothing.
    pub fn complete_fx0a(&mut self, key_value: u8) -> (r: Result<(), Chip8Error>)
        requires
            old(self).wf(),
        ensures
            final(self).wf(),
            (final(self)@, r) == complete_spec(old(self)@, key_value),
    {
        if key_value > 15 {
            return Err(Chip8Error::InvalidKeyIndex);
        }
        match self.wait {
            KeyWait::Running => Ok(()),
            KeyWait::WaitingForKey { register } => {
                self.registers[register as usize] = key_value;
                self.wait = KeyWait::Running;
                self.program_counter = self.program_counter.wrapping_add(2);
                Ok(())
            },
        }
    }

    /// Records that key `key` went down or up, and resolves a pending key
    /// wait with it where `policy` says so.
    pub fn handle_key_event(&mut self, key: u8, is_down: bool, policy: KeyWaitPolicy) -> (r: Result<
        (),
        Chip8Error,
    >)
        requires
            old(self).wf(),
        ensures
            final(self).wf(),
            (final(self)@, r) == key_event_spec(old(self)@, key, is_down, policy),
    {
        if key > 15 {
            return Err(Chip8Error::InvalidKeyIndex);
        }
        match policy {
            KeyWaitPolicy::OnPress => {
                self.key_state[key as usize] = is_down;
                if is_down && self.is_blocked() {
                    return self.complete_fx0a(key);
                }
                Ok(())
            },
            KeyWaitPolicy::OnRelease => {
                let mut r = Ok(());
                if self.is_blocked() && self.key_state[key as usize] && !is_down {
                    r = self.complete_fx0a(key);
                }
                self.key_state[key as usize] = is_down;
                r
            },
        }
    }

    /// Whether a key wait is pending, which suspends execution.
    pub fn is_blocked(&self) -> (r: bool)
        ensures
            r == self@.is_blocked(),
    {
        match self.wait {
            KeyWait::Running => false,
            KeyWait::WaitingForKey { .. } => true,
        }
    }
}

impl VirtualMachine {
    /// The display as 32 rows of 64 pixels, top row first; a lit pixel is 1.
    pub fn screen_rows(&self) -> (r: Vec<Vec<u8>>)
        requires
            self.wf(),
        ensures
            r@.len() == 32,
            forall|i: int|
                0 <= i < 32 ==> (#[trigger] r@[i])@ == self@.screen.subrange(i * 64, i * 64 + 64),
    {
        let mut rows: Vec<Vec<u8>> = Vec::new();
        let mut i: usize = 0;
        while i < 32
            invariant
                i <= 32,
                self.wf(),
                rows@.len() == i,
                forall|k: int|
                    0 <= k < i ==> (#[trigger] rows@[k])@ == self@.screen.subrange(
                        k * 64,
                        k * 64 + 64,
                    ),
            decreases 32 - i,
        {
            let mut row: Vec<u8> = Vec::new();
            let mut j: usize = 0;
            while j < 64
                invariant
                    i < 32,
                    j <= 64,
                    self.wf(),
                    row@ =~= self@.screen.subrange(i * 64, i * 64 + j),
                decreases 64 - j,
            {
                row.push(self.screen[i * 64 + j]);
                j = j + 1;
            }
            rows.push(row);
            i = i + 1;
        }
        rows
    }

    /// The sixteen general registers `V0..=VF`.
    pub fn registers(&self) -> (r: [u8; 16])
        ensures
            r@ == self@.registers,
    {
        self.registers
    }

    /// The whole memory.
    pub fn memory(&self) -> (r: &[u8; 4096])
        ensures
            r@ == self@.memory,
    {
        &self.memory
    }

    pub fn program_counter(&self) -> (r: u16)
        ensures
            r == self@.program_counter,
    {
        self.program_counter
    }

    pub fn index_register(&self) -> (r: u16)
        ensures
            r == self@.index_register,
    {
        self.index_register
    }

    /// Number of return addresses on the call stack.
    pub fn stack_pointer(&self) -> (r: u8)
        ensures
            r == self@.stack_pointer,
    {
        self.stack_pointer
    }

    pub fn delay_timer(&self) -> (r: u8)
        ensures
            r == self@.delay_timer,
    {
        self.delay_timer
    }

    pub fn sound_timer(&self) -> (r: u8)
        ensures
            r == self@.sound_timer,
    {
        self.sound_timer
    }
}

} // verus!

use vstd::prelude::*;

verus! {

use crate::config::Config;
use crate::fault::{Fault, FaultKind};
use crate::machine::{
    dump_mem, exec_spec, load_regs, sp_group, step_spec, Machine, MEMORY_SIZE, PROGRAM_ORIGIN,
};
use crate::registers::Registers;
use crate::stack::Stack;

/// A bad-opcode failure for the instruction `opcode` fetched from `pc`.
pub fn opcode_error(opcode: u16, pc: u16) -> (f: Fault)
    ensures
        f == (Fault { opcode, addr: pc, kind: FaultKind::BadOpcode }),
{
    sub_error(opcode, pc, FaultKind::BadOpcode)
}

/// A classified failure for the instruction `opcode` fetched from `pc`.
pub fn sub_error(opcode: u16, pc: u16, kind: FaultKind) -> (f: Fault)
    ensures
        f == (Fault { opcode, addr: pc, kind }),
{
    Fault { opcode, addr: pc, kind }
}

/// Compose a 12-bit address immediate from three nibbles.
pub fn create_nnn(b: u16, c: u16, d: u16) -> (r: u16)
    requires
        b < 16,
        c < 16,
        d < 16,
    ensures
        r == b * 0x100 + c * 0x10 + d,
        r < 0x1000,
{
    b * 0x100 + c * 0x10 + d
}

/// Compose an 8-bit immediate from two nibbles.
pub fn create_nn(c: u16, d: u16) -> (r: u16)
    requires
        c < 16,
        d < 16,
    ensures
        r == c * 0x10 + d,
        r < 0x100,
{
    c * 0x10 + d
}

/// The glyph font table: sixteen 5-byte glyphs for the hexadecimal digits,
/// loaded at the bottom of memory.
pub open spec fn font_seq() -> Seq<u8> {
    seq![
        0xF0u8, 0x90, 0x90, 0x90, 0xF0,  // 0
        0x20, 0x60, 0x20, 0x20, 0x70,  // 1
        0xF0, 0x10, 0xF0, 0x80, 0xF0,  // 2
        0xF0, 0x10, 0xF0, 0x10, 0xF0,  // 3
        0x90, 0x90, 0xF0, 0x10, 0x10,  // 4
        0xF0, 0x80, 0xF0, 0x10, 0xF0,  // 5
        0xF0, 0x80, 0xF0, 0x90, 0xF0,  // 6
        0xF0, 0x10, 0x20, 0x40, 0x40,  // 7
        0xF0, 0x90, 0xF0, 0x90, 0xF0,  // 8
        0xF0, 0x90, 0xF0, 0x10, 0xF0,  // 9
        0xF0, 0x90, 0xF0, 0x90, 0x90,  // A
        0xE0, 0x90, 0xE0, 0x90, 0xE0,  // B
        0xF0, 0x80, 0x80, 0x80, 0xF0,  // C
        0xE0, 0x90, 0x90, 0x90, 0xE0,  // D
        0xF0, 0x80, 0xF0, 0x80, 0xF0,  // E
        0xF0, 0x80, 0xF0, 0x80, 0x80,  // F
    ]
}

/// Append one 5-byte glyph to the memory image being built.
fn push_glyph(mem: &mut Vec<u8>, b0: u8, b1: u8, b2: u8, b3: u8, b4: u8)
    ensures
        final(mem)@ == old(mem)@ + seq![b0, b1, b2, b3, b4],
{
    mem.push(b0);
    mem.push(b1);
    mem.push(b2);
    mem.push(b3);
    mem.push(b4);
    proof {
        assert(mem@ =~= old(mem)@ + seq![b0, b1, b2, b3, b4]);
    }
}

/// The interpreter: a flat memory image preloaded with the font table and a
/// program, the register file, the call stack, the program counter, a random
/// source, and the quirk configuration chosen at construction.
pub struct Chip8 {
    memory: Vec<u8>,
    register: Registers,
    stack: Stack,
    pc: u16,
    rng: rand::rngs::ThreadRng,
    cfg: Config,
}

impl View for Chip8 {
    type V = Machine;

    closed spec fn view(&self) -> Machine {
        Machine {
            mem: self.memory@,
            v: self.register@.v,
            i: self.register@.i,
            stack: self.stack@,
            pc: self.pc,
        }
    }
}

impl Chip8 {
    /// The quirk configuration the machine was built with.
    pub closed spec fn config(&self) -> Config {
        self.cfg
    }

    pub open spec fn wf(&self) -> bool {
        self@.wf()
    }

    /// A machine with the font table at the bottom of memory, the program
    /// loaded at the program origin, all registers zeroed, an empty call
    /// stack, and the program counter at the origin. A program too large for
    /// memory is a configuration error that the caller must rule out.
    pub fn new(rom: &[u8], cfg: Config) -> (c: Chip8)
        requires
            rom@.len() <= MEMORY_SIZE - PROGRAM_ORIGIN,
        ensures
            c.wf(),
            c.config() == cfg,
            c@.pc == PROGRAM_ORIGIN,
            c@.i == 0,
            c@.stack == Seq::<u16>::empty(),
            forall|j: int| 0 <= j < 16 ==> c@.v[j] == 0u8,
            c@.mem.len() == MEMORY_SIZE,
            c@.mem.subrange(0, 80) == font_seq(),
            forall|k: int| 80 <= k < PROGRAM_ORIGIN ==> c@.mem[k] == 0u8,
            c@.mem.subrange(PROGRAM_ORIGIN as int, PROGRAM_ORIGIN + rom@.len()) == rom@,
            forall|k: int| PROGRAM_ORIGIN + rom@.len() <= k < MEMORY_SIZE ==> c@.mem[k] == 0u8,
    {
        let mut memory: Vec<u8> = Vec::new();
        push_glyph(&mut memory, 0xF0, 0x90, 0x90, 0x90, 0xF0);  // 0
        push_glyph(&mut memory, 0x20, 0x60, 0x20, 0x20, 0x70);  // 1
        push_glyph(&mut memory, 0xF0, 0x10, 0xF0, 0x80, 0xF0);  // 2
        push_glyph(&mut memory, 0xF0, 0x10, 0xF0, 0x10, 0xF0);  // 3
        push_glyph(&mut memory, 0x90, 0x90, 0xF0, 0x10, 0x10);  // 4
        push_glyph(&mut memory, 0xF0, 0x80, 0xF0, 0x10, 0xF0);  // 5
        push_glyph(&mut memory, 0xF0, 0x80, 0xF0, 0x90, 0xF0);  // 6
        push_glyph(&mut memory, 0xF0, 0x10, 0x20, 0x40, 0x40);  // 7
        push_glyph(&mut memory, 0xF0, 0x90, 0xF0, 0x90, 0xF0);  // 8
        push_glyph(&mut memory, 0xF0, 0x90, 0xF0, 0x10, 0xF0);  // 9
        push_glyph(&mut memory, 0xF0, 0x90, 0xF0, 0x90, 0x90);  // A
        push_glyph(&mut memory, 0xE0, 0x90, 0xE0, 0x90, 0xE0);  // B
        push_glyph(&mut memory, 0xF0, 0x80, 0x80, 0x80, 0xF0);  // C
        push_glyph(&mut memory, 0xE0, 0x90, 0x90, 0x90, 0xE0);  // D
        push_glyph(&mut memory, 0xF0, 0x80, 0xF0, 0x80, 0xF0);  // E
        push_glyph(&mut memory, 0xF0, 0x80, 0xF0, 0x80, 0x80);  // F
        proof {
            assert(memory@ =~= font_seq());
        }
        while memory.len() < MEMORY_SIZE
            invariant
                80 <= memory@.len() <= MEMORY_SIZE,
                forall|k: int| 0 <= k < 80 ==> memory@[k] == font_seq()[k],
                forall|k: int| 80 <= k < memory@.len() ==> memory@[k] == 0u8,
            decreases MEMORY_SIZE - memory@.len(),
        {
            memory.push(0u8);
        }
        let mut k: usize = 0;
        while k < rom.len()
            invariant
                k <= rom@.len(),
                rom@.len() <= MEMORY_SIZE - PROGRAM_ORIGIN,
                memory@.len() == MEMORY_SIZE,
                forall|j: int| 0 <= j < 80 ==> memory@[j] == font_seq()[j],
                forall|j: int| 80 <= j < PROGRAM_ORIGIN ==> memory@[j] == 0u8,
                forall|j: int| 0 <= j < k ==> memory@[PROGRAM_ORIGIN + j] == rom@[j],
                forall|j: int|
                    PROGRAM_ORIGIN + k <= j < MEMORY_SIZE ==> memory@[j] == 0u8,
            decreases rom@.len() - k,
        {
            let byte = rom[k];
            memory.set(PROGRAM_ORIGIN + k, byte);
            k = k + 1;
        }
        let c = Chip8 {
            memory,
            register: Registers::new(),
            stack: Stack::new(),
            pc: PROGRAM_ORIGIN as u16,
            rng: crate::rng::fresh_rng(),
            cfg,
        };
        proof {
            assert(c@.mem.subrange(0, 80) =~= font_seq());
            assert(c@.mem.subrange(PROGRAM_ORIGIN as int, PROGRAM_ORIGIN + rom@.len()) =~= rom@);
        }
        c
    }

    /// The current program counter.
    pub fn pc(&self) -> (pc: u16)
        ensures
            pc == self@.pc,
    {
        self.pc
    }

    /// One byte of the memory image.
    pub fn memory_byte(&self, addr: u16) -> (b: u8)
        requires
            self.wf(),
            addr < MEMORY_SIZE,
        ensures
            b == self@.mem[addr as int],
    {
        self.memory[addr as usize]
    }

    /// Read-only access to the register file.
    pub fn registers(&self) -> (r: &Registers)
        ensures
            r@.v == self@.v,
            r@.i == self@.i,
    {
        &self.register
    }

    /// Perform exactly one fetch-decode-execute cycle: read the 16-bit
    /// big-endian word at the program counter, advance the counter by 2, then
    /// dispatch. The outcome is `step_spec` of the old state with the random
    /// byte drawn for this cycle.
    pub fn step(&mut self) -> (res: Result<(), Fault>)
        requires
            old(self).wf(),
        ensures
            final(self).wf(),
            final(self).config() == old(self).config(),
            exists|r: u8|
                (final(self)@, res) == step_spec(old(self)@, old(self).config(), r),
    {
        let r = crate::rng::next_random(&mut self.rng);
        let res = self.step_with_random(r);
        proof {
            assert((self@, res) == step_spec(old(self)@, old(self).config(), r));
        }
        res
    }

    /// One cycle with the random byte supplied by the caller: the whole
    /// deterministic part of `step`, exactly `step_spec`.
    pub fn step_with_random(&mut self, r: u8) -> (res: Result<(), Fault>)
        requires
            old(self).wf(),
        ensures
            final(self).wf(),
            final(self).config() == old(self).config(),
            (final(self)@, res) == step_spec(old(self)@, old(self).config(), r),
    {
        if self.pc >= (MEMORY_SIZE - 1) as u16 {
            return Err(sub_error(0, self.pc, FaultKind::MemoryOutOfRange));
        }
        let pc = self.pc;
        let hi = self.memory[pc as usize];
        let lo = self.memory[pc as usize + 1];
        let opcode: u16 = (hi as u16) * 0x100 + (lo as u16);
        self.pc = pc + 2;
        self.exec_opcode(opcode, pc, r)
    }

    /// Dispatch one already-fetched instruction. `at` is the address it was
    /// fetched from; the program counter has already been advanced past it.
    fn exec_opcode(&mut self, opcode: u16, at: u16, r: u8) -> (res: Result<(), Fault>)
        requires
            old(self).wf(),
            old(self)@.pc <= MEMORY_SIZE,
        ensures
            final(self).wf(),
            final(self).config() == old(self).config(),
            (final(self)@, res) == exec_spec(
                old(self)@,
                old(self).config(),
                opcode,
                at,
                r,
            ),
    {
        let a = opcode / 0x1000;
        let b = (opcode / 0x100) % 0x10;
        let c = (opcode / 0x10) % 0x10;
        let d = opcode % 0x10;

        match a {
            0 => {
                if b == 0 && c == 0xE {
                    if d == 0 {
                        // 00E0: clear display; delegated to the driver.
                        Ok(())
                    } else if d == 0xE {
                        // 00EE: return from subroutine.
                        match self.stack.return_subroutine() {
                            Ok(addr) => {
                                self.pc = addr;
                                Ok(())
                            },
                            Err(_) => {
                                // Absorb the underflow when the quirk says so.
                                if self.cfg.skip_stack_underflow {
                                    Ok(())
                                } else {
                                    Err(sub_error(opcode, at, FaultKind::StackUnderflow))
                                }
                            },
                        }
                    } else {
                        Err(opcode_error(opcode, at))
                    }
                } else {
                    Err(opcode_error(opcode, at))
                }
            },
            1 => {
                // 1NNN: jump.
                let nnn = create_nnn(b, c, d);
                self.pc = nnn;
                Ok(())
            },
            2 => {
                // 2NNN: call subroutine.
                let nnn = create_nnn(b, c, d);
                match self.stack.subroutine(self.pc) {
                    Ok(()) => {
                        self.pc = nnn;
                        Ok(())
                    },
                    Err(_) => Err(sub_error(opcode, at, FaultKind::StackOverflow)),
                }
            },
            3 => {
                // 3XNN: skip if Vx == nn.
                let nn = create_nn(c, d);
                let vx = self.register.read_v(b as u8);
                if vx == nn as u8 {
                    self.pc = self.pc + 2;
                }
                Ok(())
            },
            4 => {
                // 4XNN: skip if Vx != nn.
                let nn = create_nn(c, d);
                let vx = self.register.read_v(b as u8);
                if vx != nn as u8 {
                    self.pc = self.pc + 2;
                }
                Ok(())
            },
            5 => {
                // 5XY0: skip if Vx == Vy.
                if d == 0 {
                    let vx = self.register.read_v(b as u8);
                    let vy = self.register.read_v(c as u8);
                    if vx == vy {
                        self.pc = self.pc + 2;
                    }
                    Ok(())
                } else {
                    Err(opcode_error(opcode, at))
                }
            },
            6 => {
                // 6XNN: Vx := nn.
                let nn = create_nn(c, d);
                self.register.write_v(b as u8, nn as u8);
                Ok(())
            },
            7 => {
                // 7XNN: Vx := Vx + nn, wrapping, no flag.
                let nn = create_nn(c, d);
                let vx = self.register.read_v(b as u8);
                let sum: u16 = vx as u16 + nn;
                self.register.write_v(b as u8, (sum % 256) as u8);
                Ok(())
            },
            8 => self.op_alu(opcode, at, r),
            9 => {
                // 9XY0: skip if Vx != Vy.
                if d == 0 {
                    let vx = self.register.read_v(b as u8);
                    let vy = self.register.read_v(c as u8);
                    if vx != vy {
                        self.pc = self.pc + 2;
                    }
                    Ok(())
                } else {
                    Err(opcode_error(opcode, at))
                }
            },
            0xA => {
                // ANNN: I := nnn.
                let nnn = create_nnn(b, c, d);
                self.register.set_index_register(nnn);
                Ok(())
            },
            0xB => {
                // BXNN / BNNN: jump with offset; only the legacy form is
                // bounds-checked.
                let nnn = create_nnn(b, c, d);
                if self.cfg.bxnn {
                    let vx = self.register.read_v(b as u8);
                    self.pc = nnn + vx as u16;
                    Ok(())
                } else {
                    let v0 = self.register.read_v(0);
                    let target: u16 = nnn + v0 as u16;
                    if (target as usize) < MEMORY_SIZE {
                        self.pc = target;
                        Ok(())
                    } else {
                        Err(opcode_error(opcode, at))
                    }
                }
            },
            0xC => {
                // CXNN: Vx := random byte AND nn.
                let nn = create_nn(c, d);
                let val = r & (nn as u8);
                self.register.write_v(b as u8, val);
                Ok(())
            },
            0xD => {
                // DXYN: sprite draw; delegated to the driver.
                Ok(())
            },
            0xE => {
                // EX..: key-state skips; delegated to the driver.
                Ok(())
            },
            0xF => self.op_f(opcode, at, r),
            _ => Err(opcode_error(opcode, at)),
        }
    }

    /// Group 8: register-register operations. The flag register is written
    /// from operand values captured beforehand; the destination register is
    /// always written last.
    fn op_alu(&mut self, opcode: u16, at: u16, r: u8) -> (res: Result<(), Fault>)
        requires
            old(self).wf(),
            sp_group(opcode) == 8,
        ensures
            final(self).wf(),
            final(self).config() == old(self).config(),
            (final(self)@, res) == exec_spec(
                old(self)@,
                old(self).config(),
                opcode,
                at,
                r,
            ),
    {
        let b = (opcode / 0x100) % 0x10;
        let c = (opcode / 0x10) % 0x10;
        let d = opcode % 0x10;
        let vx = self.register.read_v(b as u8);
        let vy = self.register.read_v(c as u8);
        match d {
            0 => {
                // 8XY0: Vx := Vy.
                self.register.write_v(b as u8, vy);
                Ok(())
            },
            1 => {
                // 8XY1: Vx := Vx OR Vy.
                self.register.write_v(b as u8, vx | vy);
                Ok(())
            },
            2 => {
                // 8XY2: Vx := Vx AND Vy.
                self.register.write_v(b as u8, vx & vy);
                Ok(())
            },
            3 => {
                // 8XY3: Vx := Vx XOR Vy.
                self.register.write_v(b as u8, vx ^ vy);
                Ok(())
            },
            4 => {
                // 8XY4: Vx := Vx + Vy; VF := carry.
                let sum: u16 = vx as u16 + vy as u16;
                let flag: u8 = if sum > 255 {
                    1
                } else {
                    0
                };
                self.register.write_v(15, flag);
                self.register.write_v(b as u8, (sum % 256) as u8);
                Ok(())
            },
            5 => {
                // 8XY5: Vx := Vx - Vy, wrapping; VF := 1 iff Vx > Vy.
                let flag: u8 = if vx > vy {
                    1
                } else {
                    0
                };
                let diff: u8 = if vx >= vy {
                    vx - vy
                } else {
                    ((vx as u16 + 256) - vy as u16) as u8
                };
                self.register.write_v(15, flag);
                self.register.write_v(b as u8, diff);
                Ok(())
            },
            6 => {
                // 8XY6: shift right; the source is Vy unless the in-place
                // quirk is set; VF := the bit shifted out.
                let src = if self.cfg.shift_in_place_8xy {
                    vx
                } else {
                    vy
                };
                self.register.write_v(15, src % 2);
                self.register.write_v(b as u8, src / 2);
                Ok(())
            },
            7 => {
                // 8XY7: Vx := Vy - Vx, wrapping; VF := 1 iff Vy > Vx.
                let flag: u8 = if vy > vx {
                    1
                } else {
                    0
                };
                let diff: u8 = if vy >= vx {
                    vy - vx
                } else {
                    ((vy as u16 + 256) - vx as u16) as u8
                };
                self.register.write_v(15, flag);
                self.register.write_v(b as u8, diff);
                Ok(())
            },
            0xE => {
                // 8XYE: shift left; mirrors 8XY6; VF := the bit shifted out.
                let src = if self.cfg.shift_in_place_8xy {
                    vx
                } else {
                    vy
                };
                self.register.write_v(15, src / 128);
                self.register.write_v(b as u8, ((src as u16 * 2) % 256) as u8);
                Ok(())
            },
            _ => Err(opcode_error(opcode, at)),
        }
    }

    /// Group F: index-register arithmetic, glyph lookup and bulk transfers;
    /// the timer and key opcodes belong to external collaborators and leave
    /// the core state alone.
    fn op_f(&mut self, opcode: u16, at: u16, r: u8) -> (res: Result<(), Fault>)
        requires
            old(self).wf(),
            sp_group(opcode) == 0xF,
        ensures
            final(self).wf(),
            final(self).config() == old(self).config(),
            (final(self)@, res) == exec_spec(
                old(self)@,
                old(self).config(),
                opcode,
                at,
                r,
            ),
    {
        let b = (opcode / 0x100) % 0x10;
        let c = (opcode / 0x10) % 0x10;
        let d = opcode % 0x10;
        if c == 0 && (d == 7 || d == 0xA) {
            // FX07 / FX0A: timer read and blocking key read; delegated.
            Ok(())
        } else if c == 1 && (d == 5 || d == 8) {
            // FX15 / FX18: timer writes; delegated.
            Ok(())
        } else if c == 1 && d == 0xE {
            // FX1E: I := I + Vx within the 12-bit domain; the overflow quirk
            // only ever sets the flag.
            let vx = self.register.read_v(b as u8);
            let i0 = self.register.get_index();
            let sum: u16 = i0 + vx as u16;
            if self.cfg.fx1e_overflow && sum > 0xFFF {
                self.register.write_v(15, 1);
            }
            self.register.set_index_register(sum);
            Ok(())
        } else if c == 2 && d == 9 {
            // FX29: I := address of the glyph for Vx.
            let vx = self.register.read_v(b as u8);
            self.register.set_index_register(vx as u16 * 5);
            Ok(())
        } else if c == 5 && d == 5 {
            // FX55: dump V0..=Vx to memory at I.
            let i0 = self.register.get_index();
            if i0 as usize + b as usize >= MEMORY_SIZE {
                return Err(sub_error(opcode, at, FaultKind::MemoryOutOfRange));
            }
            let ghost m0 = self@;
            let mut j: u16 = 0;
            while j <= b
                invariant
                    self.wf(),
                    self.config() == old(self).config(),
                    j <= b + 1,
                    b < 16,
                    i0 == m0.i,
                    i0 + b < MEMORY_SIZE,
                    m0.mem.len() == MEMORY_SIZE,
                    self@.v == m0.v,
                    self@.i == m0.i,
                    self@.stack == m0.stack,
                    self@.pc == m0.pc,
                    self@.mem == Seq::new(
                        m0.mem.len(),
                        |k: int| if i0 <= k < i0 + j { m0.v[k - i0] } else { m0.mem[k] },
                    ),
                decreases b + 1 - j,
            {
                let val = self.register.read_v(j as u8);
                self.memory.set(i0 as usize + j as usize, val);
                j = j + 1;
                proof {
                    assert(self@.mem =~= Seq::new(
                        m0.mem.len(),
                        |k: int| if i0 <= k < i0 + j { m0.v[k - i0] } else { m0.mem[k] },
                    ));
                }
            }
            proof {
                assert(self@.mem =~= dump_mem(m0.mem, m0.v, m0.i as int, b as int));
            }
            if self.cfg.increment_i_on_mem {
                self.register.set_index_register(i0 + b + 1);
            }
            Ok(())
        } else if c == 6 && d == 5 {
            // FX65: load V0..=Vx from memory at I.
            let i0 = self.register.get_index();
            if i0 as usize + b as usize >= MEMORY_SIZE {
                return Err(sub_error(opcode, at, FaultKind::MemoryOutOfRange));
            }
            let ghost m0 = self@;
            let mut j: u16 = 0;
            while j <= b
                invariant
                    self.wf(),
                    self.config() == old(self).config(),
                    j <= b + 1,
                    b < 16,
                    i0 == m0.i,
                    i0 + b < MEMORY_SIZE,
                    m0.v.len() == 16,
                    self@.mem == m0.mem,
                    self@.i == m0.i,
                    self@.stack == m0.stack,
                    self@.pc == m0.pc,
                    self@.v == Seq::new(
                        m0.v.len(),
                        |k: int| if 0 <= k < j { m0.mem[m0.i + k] } else { m0.v[k] },
                    ),
                decreases b + 1 - j,
            {
                let val = self.memory[i0 as usize + j as usize];
                self.register.write_v(j as u8, val);
                j = j + 1;
                proof {
                    assert(self@.v =~= Seq::new(
                        m0.v.len(),
                        |k: int| if 0 <= k < j { m0.mem[m0.i + k] } else { m0.v[k] },
                    ));
                }
            }
            proof {
                assert(self@.v =~= load_regs(m0.v, m0.mem, m0.i as int, b as int));
            }
            if self.cfg.increment_i_on_mem {
                self.register.set_index_register(i0 + b + 1);
            }
            Ok(())
        } else {
            Err(opcode_error(opcode, at))
        }
    }
}

} // verus!

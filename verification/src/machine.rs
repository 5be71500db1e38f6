use vstd::prelude::*;

verus! {

use crate::config::Config;
use crate::fault::{Fault, FaultKind};

/// Size of the flat memory image in bytes.
pub const MEMORY_SIZE: usize = 4096;
/// Address at which a loaded program begins.
pub const PROGRAM_ORIGIN: usize = 512;
/// Depth of the call stack.
pub const STACK_DEPTH: usize = 16;

/// The interpreter state that one cycle reads and writes, as mathematical
/// values: the memory image, the sixteen general registers, the index
/// register, the call stack (bottom first) and the program counter.
#[verifier::ext_equal]
pub struct Machine {
    pub mem: Seq<u8>,
    pub v: Seq<u8>,
    pub i: u16,
    pub stack: Seq<u16>,
    pub pc: u16,
}

impl Machine {
    pub open spec fn wf(self) -> bool {
        &&& self.mem.len() == MEMORY_SIZE
        &&& self.v.len() == 16
        &&& self.i < 4096
        &&& self.stack.len() <= STACK_DEPTH
    }
}

/// Dispatch group of an instruction word: its high nibble.
pub open spec fn sp_group(op: u16) -> u16 {
    op / 0x1000
}

/// Register selector x: the second nibble.
pub open spec fn sp_x(op: u16) -> u16 {
    (op / 0x100) % 0x10
}

/// Register selector y: the third nibble.
pub open spec fn sp_y(op: u16) -> u16 {
    (op / 0x10) % 0x10
}

/// The low nibble.
pub open spec fn sp_n(op: u16) -> u16 {
    op % 0x10
}

/// The 8-bit immediate: the low byte.
pub open spec fn sp_nn(op: u16) -> u16 {
    (sp_y(op) * 0x10 + sp_n(op)) as u16
}

/// The 12-bit address immediate: the low three nibbles.
pub open spec fn sp_nnn(op: u16) -> u16 {
    (sp_x(op) * 0x100 + sp_nn(op)) as u16
}

/// An 8-bit subtraction that wraps below zero.
pub open spec fn wrap_sub(a: u8, b: u8) -> u8 {
    if a >= b {
        (a - b) as u8
    } else {
        (a + 256 - b) as u8
    }
}

/// A register-register operation (group 8): for sub-key `n`, the new Vx and,
/// when the operation also writes the flag register, the new VF — computed
/// from the operand values captured before either register is overwritten.
/// `None` marks an unrecognized sub-key.
pub open spec fn alu(n: u16, vx: u8, vy: u8, shift_in_place: bool) -> Option<(u8, Option<u8>)> {
    if n == 0 {
        Some((vy, None))
    } else if n == 1 {
        Some((vx | vy, None))
    } else if n == 2 {
        Some((vx & vy, None))
    } else if n == 3 {
        Some((vx ^ vy, None))
    } else if n == 4 {
        Some((((vx + vy) % 256) as u8, Some(if vx + vy > 255 { 1u8 } else { 0u8 })))
    } else if n == 5 {
        Some((wrap_sub(vx, vy), Some(if vx > vy { 1u8 } else { 0u8 })))
    } else if n == 6 {
        let s = if shift_in_place { vx } else { vy };
        Some(((s / 2) as u8, Some((s % 2) as u8)))
    } else if n == 7 {
        Some((wrap_sub(vy, vx), Some(if vy > vx { 1u8 } else { 0u8 })))
    } else if n == 0xE {
        let s = if shift_in_place { vx } else { vy };
        Some(((s * 2 % 256) as u8, Some((s / 128) as u8)))
    } else {
        None
    }
}

/// The general registers after a group-8 operation writes the flag (when it
/// does) and then the destination register — in that order, so that with
/// x = 15 the destination write wins.
pub open spec fn alu_regs(v: Seq<u8>, x: int, nv: u8, flag: Option<u8>) -> Seq<u8> {
    match flag {
        Some(f) => v.update(15, f).update(x, nv),
        None => v.update(x, nv),
    }
}

/// The memory image after dumping registers V0..=Vx to addresses i..=i+x.
pub open spec fn dump_mem(mem: Seq<u8>, v: Seq<u8>, i: int, x: int) -> Seq<u8> {
    Seq::new(mem.len(), |k: int| if i <= k <= i + x { v[k - i] } else { mem[k] })
}

/// The general registers after loading V0..=Vx from addresses i..=i+x.
pub open spec fn load_regs(v: Seq<u8>, mem: Seq<u8>, i: int, x: int) -> Seq<u8> {
    Seq::new(v.len(), |j: int| if j <= x { mem[i + j] } else { v[j] })
}

/// A successful cycle outcome.
pub open spec fn ok_at(m: Machine) -> (Machine, Result<(), Fault>) {
    (m, Ok(()))
}

/// A failed cycle outcome: the machine as it stands and the classified fault.
pub open spec fn fault_at(m: Machine, op: u16, at: u16, kind: FaultKind) -> (
    Machine,
    Result<(), Fault>,
) {
    (m, Err(Fault { opcode: op, addr: at, kind }))
}

/// The machine after skipping the next instruction.
pub open spec fn skip_next(m: Machine) -> Machine {
    Machine { pc: (m.pc + 2) as u16, ..m }
}

/// Effect of the already-fetched instruction `op` on machine `m`, whose
/// program counter has already been advanced past the instruction. `at` is
/// the address the instruction was fetched from, `r` the random byte drawn
/// for this cycle. Opcodes that belong to external collaborators (display,
/// keyboard, timers) succeed without touching the core state.
pub open spec fn exec_spec(m: Machine, cfg: Config, op: u16, at: u16, r: u8) -> (
    Machine,
    Result<(), Fault>,
) {
    let g = sp_group(op);
    let x = sp_x(op);
    let y = sp_y(op);
    let n = sp_n(op);
    let nn = sp_nn(op);
    let nnn = sp_nnn(op);
    if g == 0 {
        if x == 0 && y == 0xE && n == 0 {
            // 00E0: clear display; delegated to the driver.
            ok_at(m)
        } else if x == 0 && y == 0xE && n == 0xE {
            // 00EE: return from subroutine.
            if m.stack.len() > 0 {
                ok_at(Machine { pc: m.stack.last(), stack: m.stack.drop_last(), ..m })
            } else if cfg.skip_stack_underflow {
                ok_at(m)
            } else {
                fault_at(m, op, at, FaultKind::StackUnderflow)
            }
        } else {
            fault_at(m, op, at, FaultKind::BadOpcode)
        }
    } else if g == 1 {
        // 1NNN: jump.
        ok_at(Machine { pc: nnn, ..m })
    } else if g == 2 {
        // 2NNN: call subroutine.
        if m.stack.len() < STACK_DEPTH {
            ok_at(Machine { stack: m.stack.push(m.pc), pc: nnn, ..m })
        } else {
            fault_at(m, op, at, FaultKind::StackOverflow)
        }
    } else if g == 3 {
        // 3XNN: skip if Vx == nn.
        if m.v[x as int] == nn {
            ok_at(skip_next(m))
        } else {
            ok_at(m)
        }
    } else if g == 4 {
        // 4XNN: skip if Vx != nn.
        if m.v[x as int] != nn {
            ok_at(skip_next(m))
        } else {
            ok_at(m)
        }
    } else if g == 5 {
        // 5XY0: skip if Vx == Vy.
        if n == 0 {
            if m.v[x as int] == m.v[y as int] {
                ok_at(skip_next(m))
            } else {
                ok_at(m)
            }
        } else {
            fault_at(m, op, at, FaultKind::BadOpcode)
        }
    } else if g == 6 {
        // 6XNN: Vx := nn.
        ok_at(Machine { v: m.v.update(x as int, nn as u8), ..m })
    } else if g == 7 {
        // 7XNN: Vx := Vx + nn, wrapping, no flag.
        ok_at(Machine { v: m.v.update(x as int, ((m.v[x as int] + nn) % 256) as u8), ..m })
    } else if g == 8 {
        // 8XYn: register-register operations.
        match alu(n, m.v[x as int], m.v[y as int], cfg.shift_in_place_8xy) {
            Some((nv, flag)) => ok_at(Machine { v: alu_regs(m.v, x as int, nv, flag), ..m }),
            None => fault_at(m, op, at, FaultKind::BadOpcode),
        }
    } else if g == 9 {
        // 9XY0: skip if Vx != Vy.
        if n == 0 {
            if m.v[x as int] != m.v[y as int] {
                ok_at(skip_next(m))
            } else {
                ok_at(m)
            }
        } else {
            fault_at(m, op, at, FaultKind::BadOpcode)
        }
    } else if g == 0xA {
        // ANNN: I := nnn.
        ok_at(Machine { i: nnn % 4096, ..m })
    } else if g == 0xB {
        // BXNN / BNNN: jump with offset; only the legacy form is
        // bounds-checked.
        if cfg.bxnn {
            ok_at(Machine { pc: (nnn + m.v[x as int]) as u16, ..m })
        } else {
            if nnn + m.v[0] < MEMORY_SIZE {
                ok_at(Machine { pc: (nnn + m.v[0]) as u16, ..m })
            } else {
                fault_at(m, op, at, FaultKind::BadOpcode)
            }
        }
    } else if g == 0xC {
        // CXNN: Vx := random byte AND nn.
        ok_at(Machine { v: m.v.update(x as int, r & (nn as u8)), ..m })
    } else if g == 0xD {
        // DXYN: sprite draw; delegated to the driver.
        ok_at(m)
    } else if g == 0xE {
        // EX..: key-state skips; delegated to the driver.
        ok_at(m)
    } else if g == 0xF {
        // FX..: nested dispatch on y and n.
        if y == 0 && n == 7 {
            // FX07: delay timer read; delegated to the driver.
            ok_at(m)
        } else if y == 0 && n == 0xA {
            // FX0A: blocking key read; delegated to the driver.
            ok_at(m)
        } else if y == 1 && n == 5 {
            // FX15: delay timer write; delegated to the driver.
            ok_at(m)
        } else if y == 1 && n == 8 {
            // FX18: sound timer write; delegated to the driver.
            ok_at(m)
        } else if y == 1 && n == 0xE {
            // FX1E: I := I + Vx within the 12-bit domain; the overflow quirk
            // only ever sets the flag, never clears it.
            let sum = m.i + m.v[x as int];
            let v2 = if cfg.fx1e_overflow && sum > 0xFFF {
                m.v.update(15, 1u8)
            } else {
                m.v
            };
            ok_at(Machine { i: (sum % 4096) as u16, v: v2, ..m })
        } else if y == 2 && n == 9 {
            // FX29: I := address of the glyph for Vx.
            ok_at(Machine { i: ((m.v[x as int] * 5) % 4096) as u16, ..m })
        } else if y == 5 && n == 5 {
            // FX55: dump V0..=Vx to memory at I.
            if m.i + x < MEMORY_SIZE {
                let m2 = Machine { mem: dump_mem(m.mem, m.v, m.i as int, x as int), ..m };
                if cfg.increment_i_on_mem {
                    ok_at(Machine { i: ((m.i + x + 1) % 4096) as u16, ..m2 })
                } else {
                    ok_at(m2)
                }
            } else {
                fault_at(m, op, at, FaultKind::MemoryOutOfRange)
            }
        } else if y == 6 && n == 5 {
            // FX65: load V0..=Vx from memory at I.
            if m.i + x < MEMORY_SIZE {
                let m2 = Machine { v: load_regs(m.v, m.mem, m.i as int, x as int), ..m };
                if cfg.increment_i_on_mem {
                    ok_at(Machine { i: ((m.i + x + 1) % 4096) as u16, ..m2 })
                } else {
                    ok_at(m2)
                }
            } else {
                fault_at(m, op, at, FaultKind::MemoryOutOfRange)
            }
        } else {
            fault_at(m, op, at, FaultKind::BadOpcode)
        }
    } else {
        // A group is a nibble, so this is unreachable; it mirrors the
        // dispatcher's default arm.
        fault_at(m, op, at, FaultKind::BadOpcode)
    }
}

/// The instruction word at `pc`: two consecutive bytes, big-endian.
pub open spec fn fetch(mem: Seq<u8>, pc: u16) -> u16 {
    ((mem[pc as int] as u16) * 0x100 + (mem[pc as int + 1] as u16)) as u16
}

/// One full fetch-decode-execute cycle on machine `m` with random byte `r`:
/// fetch the word at the program counter, advance the counter by 2, then
/// apply the instruction. A fetch outside memory is a fault that leaves the
/// machine unchanged.
pub open spec fn step_spec(m: Machine, cfg: Config, r: u8) -> (Machine, Result<(), Fault>) {
    if m.pc + 1 < MEMORY_SIZE {
        exec_spec(Machine { pc: (m.pc + 2) as u16, ..m }, cfg, fetch(m.mem, m.pc), m.pc, r)
    } else {
        fault_at(m, 0, m.pc, FaultKind::MemoryOutOfRange)
    }
}

} // verus!

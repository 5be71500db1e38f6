use vstd::prelude::*;

verus! {

/// Compatibility quirks: named behavior switches, fixed for a machine's whole
/// lifetime, that pick among historically divergent implementations of the
/// same opcode. No switch changes which opcodes are recognized, only what a
/// recognized handler does.
#[derive(Clone, Copy, Debug, PartialEq, Eq, Structural)]
pub struct Config {
    /// Jump-with-offset addressing: when set, `PC := nnn + Vx` (the upper
    /// nibble of the address selects the offset register); when clear,
    /// `PC := nnn + V0` with a bounds check on the target.
    pub bxnn: bool,
    /// Absorb a return from an empty call stack as a no-op instead of failing.
    pub skip_stack_underflow: bool,
    /// Set VF to 1 when `I + Vx` exceeds the 12-bit address space.
    pub fx1e_overflow: bool,
    /// Shift Vx in place instead of first copying Vy into Vx.
    pub shift_in_place_8xy: bool,
    /// Advance the index register by x + 1 after a bulk register/memory
    /// transfer.
    pub increment_i_on_mem: bool,
}

impl Default for Config {
    /// All quirks off: the legacy behavior of every opcode.
    fn default() -> (c: Config)
        ensures
            c == (Config {
                bxnn: false,
                skip_stack_underflow: false,
                fx1e_overflow: false,
                shift_in_place_8xy: false,
                increment_i_on_mem: false,
            }),
    {
        Config {
            bxnn: false,
            skip_stack_underflow: false,
            fx1e_overflow: false,
            shift_in_place_8xy: false,
            increment_i_on_mem: false,
        }
    }
}

} // verus!

use vstd::prelude::*;

verus! {

/// The ways a single interpreter cycle can fail.
#[derive(Clone, Copy, Debug, PartialEq, Eq, Structural)]
pub enum FaultKind {
    /// The fetched bit pattern matches no recognized opcode.
    BadOpcode,
    /// A call was made with the call stack already at its full depth.
    StackOverflow,
    /// A return was executed with the call stack empty.
    StackUnderflow,
    /// A register index outside 0..=15 was used. Decoding keeps register
    /// selectors inside a nibble, so a cycle never actually reports this;
    /// the variant completes the taxonomy for drivers that index registers
    /// themselves.
    RegisterOutOfRange,
    /// A memory access fell outside the address space.
    MemoryOutOfRange,
}

/// A classified failure from one cycle: the raw instruction bits, the address
/// they were fetched from, and the reason. The program counter already points
/// past the failed instruction when a fault is reported.
#[derive(Clone, Copy, Debug, PartialEq, Eq, Structural)]
pub struct Fault {
    /// The raw 16-bit instruction word (zero when the fetch itself failed).
    pub opcode: u16,
    /// The address the instruction was fetched from.
    pub addr: u16,
    /// The classified reason.
    pub kind: FaultKind,
}

impl FaultKind {
    /// A short human-readable reason, as a driver would print it.
    pub fn reason(&self) -> (r: &'static str)
        ensures
            *self is BadOpcode ==> r@ == "Bad opcode"@,
            *self is StackOverflow ==> r@ == "Stack overflow"@,
            *self is StackUnderflow ==> r@ == "Stack underflow"@,
            *self is RegisterOutOfRange ==> r@ == "Invalid register"@,
            *self is MemoryOutOfRange ==> r@ == "Memory out of range"@,
    {
        match self {
            FaultKind::BadOpcode => "Bad opcode",
            FaultKind::StackOverflow => "Stack overflow",
            FaultKind::StackUnderflow => "Stack underflow",
            FaultKind::RegisterOutOfRange => "Invalid register",
            FaultKind::MemoryOutOfRange => "Memory out of range",
        }
    }
}

} // verus!

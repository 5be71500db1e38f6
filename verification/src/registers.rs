use vstd::prelude::*;

verus! {

/// Mathematical view of the register file: the sixteen general registers as a
/// sequence of bytes, and the 12-bit index register.
#[verifier::ext_equal]
pub struct RegView {
    pub v: Seq<u8>,
    pub i: u16,
}

/// Sixteen general-purpose 8-bit registers plus one 16-bit index register
/// that always holds a 12-bit memory address. Register 15 (VF) is reserved by
/// convention as the flag register.
pub struct Registers {
    v: Vec<u8>,
    i: u16,
}

impl View for Registers {
    type V = RegView;

    closed spec fn view(&self) -> RegView {
        RegView { v: self.v@, i: self.i }
    }
}

impl Registers {
    /// There are always exactly sixteen general registers, and the index
    /// register never leaves the 12-bit address space.
    pub open spec fn wf(&self) -> bool {
        &&& self@.v.len() == 16
        &&& self@.i < 4096
    }

    /// A zero-initialized register file.
    pub fn new() -> (r: Registers)
        ensures
            r.wf(),
            forall|j: int| 0 <= j < 16 ==> r@.v[j] == 0u8,
            r@.i == 0,
    {
        let mut v: Vec<u8> = Vec::new();
        let mut k: usize = 0;
        while k < 16
            invariant
                k <= 16,
                v@.len() == k,
                forall|j: int| 0 <= j < k ==> v@[j] == 0u8,
            decreases 16 - k,
        {
            v.push(0u8);
            k = k + 1;
        }
        Registers { v, i: 0 }
    }

    /// Store a 12-bit address in the index register; higher bits are masked
    /// away.
    pub fn set_index_register(&mut self, i: u16)
        ensures
            old(self).wf() ==> final(self).wf(),
            final(self)@.i == i % 4096,
            final(self)@.v == old(self)@.v,
    {
        self.i = i % 4096;
    }

    /// The current index register value.
    pub fn get_index(&self) -> (i: u16)
        ensures
            i == self@.i,
    {
        self.i
    }

    /// Write a general register, rejecting an out-of-range index.
    pub fn set_v(&mut self, register: u8, value: u8) -> (res: Result<(), &'static str>)
        requires
            old(self).wf(),
        ensures
            final(self).wf(),
            register <= 15 ==> res == Ok::<(), &'static str>(())
                && final(self)@.v == old(self)@.v.update(register as int, value),
            register > 15 ==> (res matches Err(m) && m@ == "Invalid register"@)
                && final(self)@ == old(self)@,
            final(self)@.i == old(self)@.i,
    {
        if register > 15 {
            return Err("Invalid register");
        }
        self.write_v(register, value);
        Ok(())
    }

    /// Read a general register, rejecting an out-of-range index.
    pub fn get_v(&self, register: u8) -> (res: Result<u8, &'static str>)
        requires
            self.wf(),
        ensures
            register <= 15 ==> res == Ok::<u8, &'static str>(self@.v[register as int]),
            register > 15 ==> (res matches Err(m) && m@ == "Invalid register"@),
    {
        if register > 15 {
            return Err("Invalid register");
        }
        Ok(self.read_v(register))
    }

    /// Read a general register whose index is already known to be in range;
    /// the interpreter decodes register selectors from nibbles, so its
    /// accesses always are.
    pub(crate) fn read_v(&self, reg: u8) -> (val: u8)
        requires
            self.wf(),
            reg < 16,
        ensures
            val == self@.v[reg as int],
    {
        self.v[reg as usize]
    }

    /// Write a general register whose index is already known to be in range.
    pub(crate) fn write_v(&mut self, reg: u8, value: u8)
        requires
            old(self).wf(),
            reg < 16,
        ensures
            final(self).wf(),
            final(self)@.v == old(self)@.v.update(reg as int, value),
            final(self)@.i == old(self)@.i,
    {
        self.v.set(reg as usize, value);
    }
}

} // verus!

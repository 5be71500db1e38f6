use vstd::prelude::*;

verus! {

/// A bounded last-in-first-out sequence of up to sixteen 16-bit return
/// addresses. Its view is the live entries, bottom first.
pub struct Stack {
    stack: Vec<u16>,
}

impl View for Stack {
    type V = Seq<u16>;

    closed spec fn view(&self) -> Seq<u16> {
        self.stack@
    }
}

impl Stack {
    /// The depth never exceeds sixteen.
    pub open spec fn wf(&self) -> bool {
        self@.len() <= 16
    }

    /// An empty call stack.
    pub fn new() -> (s: Stack)
        ensures
            s@ == Seq::<u16>::empty(),
            s.wf(),
    {
        Stack { stack: Vec::new() }
    }

    /// Push a return address for a subroutine call. A seventeenth push is a
    /// distinguished overflow failure and leaves the stack unchanged.
    pub fn subroutine(&mut self, pc: u16) -> (res: Result<(), &'static str>)
        ensures
            old(self)@.len() < 16 ==> res == Ok::<(), &'static str>(())
                && final(self)@ == old(self)@.push(pc),
            old(self)@.len() >= 16 ==> (res matches Err(m) && m@ == "Stack overflow"@)
                && final(self)@ == old(self)@,
            old(self).wf() ==> final(self).wf(),
    {
        if self.stack.len() >= 16 {
            return Err("Stack overflow");
        }
        self.stack.push(pc);
        Ok(())
    }

    /// Pop the most recently pushed return address. Popping an empty stack is
    /// a distinguished underflow failure, not a panic.
    pub fn return_subroutine(&mut self) -> (res: Result<u16, &'static str>)
        ensures
            old(self)@.len() > 0 ==> res == Ok::<u16, &'static str>(old(self)@.last())
                && final(self)@ == old(self)@.drop_last(),
            old(self)@.len() == 0 ==> (res matches Err(m) && m@ == "Stack underflow"@)
                && final(self)@ == old(self)@,
            old(self).wf() ==> final(self).wf(),
    {
        match self.stack.pop() {
            Some(addr) => Ok(addr),
            None => Err("Stack underflow"),
        }
    }
}

} // verus!

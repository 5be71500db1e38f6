use vstd::prelude::*;

verus! {

use crate::config::Config;
use crate::fault::{Fault, FaultKind};
use crate::machine::{exec_spec, sp_group, sp_n, sp_x, sp_y, Machine};
use crate::registers::RegView;

/// Writing any general register r (0..=15) with any value and then reading
/// the same register yields exactly that value. `Registers::set_v` ensures
/// the view update written here, and `Registers::get_v` returns the indexed
/// element.
pub proof fn lemma_register_round_trip(regs: RegView, r: u8, value: u8)
    requires
        regs.v.len() == 16,
        r < 16,
    ensures
        (RegView { v: regs.v.update(r as int, value), ..regs }).v[r as int] == value,
{
}

/// A register-to-register load (8XY0) is idempotent: executing it twice
/// leaves the same Vx as executing it once.
pub proof fn lemma_load_idempotent(m: Machine, cfg: Config, op: u16, at: u16, r: u8)
    requires
        m.wf(),
        sp_group(op) == 8,
        sp_n(op) == 0,
    ensures
        ({
            let once = exec_spec(m, cfg, op, at, r).0;
            let twice = exec_spec(once, cfg, op, at, r).0;
            twice.v[sp_x(op) as int] == once.v[sp_x(op) as int]
        }),
{
}

/// After 8XY4 with destination other than the flag register itself, VF is 1
/// exactly when the unwrapped 9-bit sum exceeded 255, and Vx is the sum
/// mod 256. (With x = 15 the destination write overwrites the flag, so the
/// flag half cannot hold there.)
pub proof fn lemma_add_carry_flag(m: Machine, cfg: Config, op: u16, at: u16, r: u8)
    requires
        m.wf(),
        sp_group(op) == 8,
        sp_n(op) == 4,
        sp_x(op) != 15,
    ensures
        exec_spec(m, cfg, op, at, r).1 is Ok,
        ({
            let post = exec_spec(m, cfg, op, at, r).0;
            let sum = m.v[sp_x(op) as int] + m.v[sp_y(op) as int];
            &&& post.v[15] == (if sum > 255 { 1u8 } else { 0u8 })
            &&& post.v[sp_x(op) as int] == sum % 256
        }),
{
}

/// After a shift (8XY6 or 8XYE) with destination other than the flag register
/// itself, VF equals exactly the bit shifted out of the pre-shift source
/// value — whichever source the in-place quirk selects, and for either quirk
/// setting.
pub proof fn lemma_shift_out_flag(m: Machine, cfg: Config, op: u16, at: u16, r: u8)
    requires
        m.wf(),
        sp_group(op) == 8,
        sp_n(op) == 6 || sp_n(op) == 0xE,
        sp_x(op) != 15,
    ensures
        exec_spec(m, cfg, op, at, r).1 is Ok,
        ({
            let post = exec_spec(m, cfg, op, at, r).0;
            let src = if cfg.shift_in_place_8xy {
                m.v[sp_x(op) as int]
            } else {
                m.v[sp_y(op) as int]
            };
            &&& sp_n(op) == 6 ==> post.v[15] == src % 2
            &&& sp_n(op) == 0xE ==> post.v[15] == src / 128
        }),
{
}

/// The stack contents after pushing each address of `addrs` in order.
pub open spec fn push_all(s: Seq<u16>, addrs: Seq<u16>) -> Seq<u16>
    decreases addrs.len(),
{
    if addrs.len() == 0 {
        s
    } else {
        push_all(s.push(addrs.first()), addrs.drop_first())
    }
}

/// The addresses yielded by popping until the stack is empty, in pop order.
pub open spec fn pop_all(s: Seq<u16>) -> Seq<u16>
    decreases s.len(),
{
    if s.len() == 0 {
        Seq::empty()
    } else {
        seq![s.last()] + pop_all(s.drop_last())
    }
}

/// Pushing a sequence of addresses appends them in order.
pub proof fn lemma_push_all(s: Seq<u16>, addrs: Seq<u16>)
    ensures
        push_all(s, addrs) == s + addrs,
    decreases addrs.len(),
{
    if addrs.len() == 0 {
        assert(push_all(s, addrs) =~= s + addrs);
    } else {
        lemma_push_all(s.push(addrs.first()), addrs.drop_first());
        assert(s.push(addrs.first()) + addrs.drop_first() =~= s + addrs);
    }
}

/// Popping everything yields the stack contents in reverse.
pub proof fn lemma_pop_all_reverse(s: Seq<u16>)
    ensures
        pop_all(s) == s.reverse(),
    decreases s.len(),
{
    if s.len() == 0 {
        assert(pop_all(s) =~= s.reverse());
    } else {
        lemma_pop_all_reverse(s.drop_last());
        assert(seq![s.last()] + s.drop_last().reverse() =~= s.reverse());
    }
}

/// The stack is LIFO: pushing a1..an onto an empty stack holds exactly
/// a1..an, and popping n times yields an..a1, the pushed addresses in
/// reverse order. `Stack::subroutine` ensures each push is `Seq::push` (and
/// that a push beyond depth 16 fails instead), and
/// `Stack::return_subroutine` ensures each pop takes the last element.
pub proof fn lemma_stack_lifo(addrs: Seq<u16>)
    ensures
        push_all(Seq::<u16>::empty(), addrs) == addrs,
        pop_all(addrs) == addrs.reverse(),
{
    lemma_push_all(Seq::<u16>::empty(), addrs);
    assert(Seq::<u16>::empty() + addrs =~= addrs);
    lemma_pop_all_reverse(addrs);
}

/// A return (00EE) on an empty call stack is absorbed as a no-op when the
/// underflow quirk is set and is a StackUnderflow fault otherwise; either way
/// the machine state is unchanged.
pub proof fn lemma_return_on_empty_stack(m: Machine, cfg: Config, op: u16, at: u16, r: u8)
    requires
        m.wf(),
        sp_group(op) == 0,
        sp_x(op) == 0,
        sp_y(op) == 0xE,
        sp_n(op) == 0xE,
        m.stack.len() == 0,
    ensures
        exec_spec(m, cfg, op, at, r).0 == m,
        cfg.skip_stack_underflow ==> exec_spec(m, cfg, op, at, r).1 is Ok,
        !cfg.skip_stack_underflow ==> exec_spec(m, cfg, op, at, r).1 == Err::<(), Fault>(
            (Fault { opcode: op, addr: at, kind: FaultKind::StackUnderflow }),
        ),
{
}

} // verus!

use vstd::prelude::*;

use crate::instruction::{decode_spec, nn_of, nnn_of, op_of, x_of, Instruction};
use crate::machine::{addr_after, Machine};

verus! {

/// A cycle on any 6XNN word leaves register X holding NN and moves the
/// program counter on by one instruction (two bytes).
pub proof fn law_set_immediate(m: Machine, rnd: u8)
    requires
        m.wf(),
        op_of(m.fetch()) == 6,
    ensures
        m.cycle(rnd).reg(x_of(m.fetch())) == nn_of(m.fetch()),
        m.cycle(rnd).pc == addr_after(m.pc, 2),
{
}

/// A call followed, after any instructions that leave the stack as the call
/// left it, by a return resumes just past the call and restores the stack
/// pointer.
pub proof fn law_call_then_return(m: Machine, nnn: u16, later: Machine, rnd: u8)
    requires
        m.wf(),
        m.sp < 16,
        nnn < 4096,
        later.wf(),
        later.sp == m.execute(Instruction::Call { nnn }, rnd).sp,
        later.stack[m.sp as int] == m.execute(Instruction::Call { nnn }, rnd).stack[m.sp as int],
    ensures
        m.execute(Instruction::Call { nnn }, rnd).pc == nnn,
        later.execute(Instruction::Return, rnd).pc == addr_after(m.pc, 2),
        later.execute(Instruction::Return, rnd).sp == m.sp,
{
}

/// A call immediately followed by a return resumes just past the call with
/// the stack pointer restored.
pub proof fn law_call_return_round_trip(m: Machine, nnn: u16, rnd: u8)
    requires
        m.wf(),
        m.sp < 16,
        nnn < 4096,
    ensures
        m.execute(Instruction::Call { nnn }, rnd).execute(Instruction::Return, rnd).pc
            == addr_after(m.pc, 2),
        m.execute(Instruction::Call { nnn }, rnd).execute(Instruction::Return, rnd).sp == m.sp,
{
    law_call_then_return(m, nnn, m.execute(Instruction::Call { nnn }, rnd), rnd);
}

/// A cycle on a word that names no instruction changes nothing but the
/// program counter, which moves on by two bytes, and the timers' countdown.
pub proof fn law_unknown_is_noop(m: Machine, rnd: u8)
    requires
        m.wf(),
        decode_spec(m.fetch()) is Unknown,
    ensures
        m.cycle(rnd) == (Machine { pc: addr_after(m.pc, 2), ..m }).tick(),
        m.cycle(rnd).register == m.register,
        m.cycle(rnd).memory == m.memory,
        m.cycle(rnd).sp == m.sp,
        m.cycle(rnd).stack == m.stack,
{
}

/// The timers count down by one per cycle and never go below zero.
pub proof fn law_timers_saturate(m: Machine)
    ensures
        m.tick().delay_timer == if m.delay_timer > 0 { m.delay_timer - 1 } else { 0 },
        m.tick().sound_timer == if m.sound_timer > 0 { m.sound_timer - 1 } else { 0 },
        m.delay_timer == 0 ==> m.tick().delay_timer == 0,
        m.sound_timer == 0 ==> m.tick().sound_timer == 0,
{
}

/// Every cycle keeps the machine well formed.
pub proof fn law_cycle_keeps_wf(m: Machine, rnd: u8)
    requires
        m.wf(),
    ensures
        m.cycle(rnd).wf(),
{
}

} // verus!

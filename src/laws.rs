use vstd::prelude::*;

use crate::cpu::CPU6502;
use crate::cpu_spec::{branch_taken, crosses, is_branch, stack_addr};
use crate::instruction::{instruction_of, lemma_base_cycles, Opcode};
use crate::io::IO;
use crate::status::Status;

verus! {

/// Only a taken branch changes the cycles left: by one, or by two where
/// the target lies on another page than the PC.
pub proof fn lemma_operate_cycles<T: IO>(s: CPU6502<T>, op: Opcode)
    requires
        s.cycles_left <= 253,
    ensures
        s.operate(op).cycles_left == s.cycles_left + if is_branch(op) && branch_taken(op, s.p) {
            if crosses(s.pc, s.op_addr) {
                2int
            } else {
                1
            }
        } else {
            0
        },
{
}

/// At the end of the tick that runs an instruction, the cycles left are
/// the entry's base count less one, plus one for an eligible page crossing
/// of the operand, one for a taken branch, and one more for a taken branch
/// to another page.
pub proof fn lemma_retirement_cycles<T: IO>(s: CPU6502<T>)
    requires
        s.cycles_left == 0,
    ensures
        ({
            let ins = instruction_of(s.rd(s.pc));
            let f = CPU6502 { cycles: s.cycles.wrapping_add(1), ..s }.fetched();
            let (a, crossed) = f.address(ins.1);
            let page_penalty: int = if crossed && ins.3 { 1 } else { 0 };
            let taken = is_branch(ins.0) && branch_taken(ins.0, a.p);
            let taken_penalty: int = if taken { 1 } else { 0 };
            let cross_penalty: int = if taken && crosses(a.pc, a.op_addr) { 1 } else { 0 };
            s.clock_spec().cycles_left == ins.2 - 1 + page_penalty + taken_penalty + cross_penalty
        }),
{
    reveal(CPU6502::execute_spec);
    reveal(CPU6502::clock_spec);
    let ins = instruction_of(s.rd(s.pc));
    lemma_base_cycles(s.rd(s.pc));
    let f = CPU6502 { cycles: s.cycles.wrapping_add(1), ..s }.fetched();
    let (a, crossed) = f.address(ins.1);
    let b = a.with_penalty(crossed, ins.3);
    assert(a.cycles_left == f.cycles_left);
    lemma_operate_cycles(b, ins.0);
}

/// The stack pointer moves modulo 256, and the PC modulo 65536: a push
/// moves SP down by one, a pull up by one, and fetching an opcode moves PC
/// on by one, wrapping at the ends of their ranges.
pub proof fn lemma_wraparound<T: IO>(s: CPU6502<T>, v: u8)
    ensures
        s.push(v).sp == (s.sp + 255) % 256,
        s.pull().0.sp == (s.sp + 1) % 256,
        s.fetched().pc == (s.pc + 1) % 65536,
        s.sp == 0 ==> s.push(v).sp == 0xFF,
        s.sp == 0xFF ==> s.pull().0.sp == 0,
        s.pc == 0xFFFF ==> s.fetched().pc == 0,
{
}

/// What is pushed is pulled back, and SP returns to where it was.
pub proof fn lemma_push_pull<T: IO>(s: CPU6502<T>, v: u8)
    requires
        s.mem.retains(stack_addr(s.sp)),
    ensures
        s.push(v).pull().1 == v,
        s.push(v).pull().0.sp == s.sp,
{
    s.mem.lemma_io_laws(stack_addr(s.sp), v, stack_addr(s.sp));
    assert(s.sp.wrapping_sub(1).wrapping_add(1) == s.sp);
}

/// `PHP` then `PLP` gives back P with B cleared and U set, and SP as it was.
pub proof fn lemma_php_plp<T: IO>(s: CPU6502<T>)
    requires
        s.mem.retains(stack_addr(s.sp)),
    ensures
        s.operate(Opcode::PHP).operate(Opcode::PLP).p == (Status { b: false, u: true, ..s.p }),
        s.operate(Opcode::PHP).operate(Opcode::PLP).sp == s.sp,
{
    let pushed = Status { b: true, u: true, ..s.p };
    lemma_push_pull(s, pushed.spec_bits());
    pushed.lemma_bits_round_trip();
}

/// `JSR` then `RTS` returns to the address after the `JSR`'s operand (the
/// PC that `JSR` found), with SP as it was.
pub proof fn lemma_jsr_rts<T: IO>(s: CPU6502<T>)
    requires
        s.mem.retains(stack_addr(s.sp)),
        s.mem.retains(stack_addr(s.sp.wrapping_sub(1))),
    ensures
        s.operate(Opcode::JSR).operate(Opcode::RTS).pc == s.pc,
        s.operate(Opcode::JSR).operate(Opcode::RTS).sp == s.sp,
{
    let ret = s.pc.wrapping_sub(1);
    let hi = (ret / 256) as u8;
    let lo = (ret % 256) as u8;
    let a1 = stack_addr(s.sp);
    let s1 = s.push(hi);
    let a2 = stack_addr(s1.sp);
    let s2 = s1.push(lo);
    assert(a1 != a2);
    s.mem.lemma_io_laws(a1, hi, a1);
    s.mem.lemma_io_laws(a1, hi, a2);
    s1.mem.lemma_io_laws(a2, lo, a2);
    s1.mem.lemma_io_laws(a2, lo, a1);
    assert(s2.rd(a1) == hi);
    assert(s2.rd(a2) == lo);
    assert(s2.sp.wrapping_add(1) == s1.sp);
    assert(s1.sp.wrapping_add(1) == s.sp);
}

/// A `JSR` fetched at an instruction boundary, followed by the `RTS` of
/// the subroutine it called, resumes at the instruction after the three
/// bytes of the `JSR`.
pub proof fn lemma_jsr_rts_return_address<T: IO>(s: CPU6502<T>)
    requires
        s.cycles_left == 0,
        s.rd(s.pc) == 0x20,
        s.mem.retains(stack_addr(s.sp)),
        s.mem.retains(stack_addr(s.sp.wrapping_sub(1))),
    ensures
        s.clock_spec().operate(Opcode::RTS).pc == s.pc.wrapping_add(3),
        s.clock_spec().operate(Opcode::RTS).sp == s.sp,
{
    reveal(CPU6502::clock_spec);
    reveal(CPU6502::execute_spec);
    reveal(instruction_of);
    let t = CPU6502 { cycles: s.cycles.wrapping_add(1), ..s };
    let f = t.fetched();
    let a = f.address(crate::instruction::Mode::ABS).0;
    assert(a.pc == s.pc.wrapping_add(3));
    lemma_jsr_rts(a);
}

} // verus!

use vstd::prelude::*;

use crate::cpu::CPU6502;
use crate::instruction::{instruction_of, lookup, Mode};
use crate::io::IO;
use crate::text::{current_chars, current_text, line_chars, line_text, to_string};

verus! {

/// The last address at which the sweep decodes an instruction.
pub const LAST_ADDR: u16 = 0xFFFD;

/// How many bytes an instruction in `mode` takes, opcode included.
pub open spec fn span(mode: Mode) -> int {
    match mode {
        Mode::IMP | Mode::ACC => 1,
        Mode::ABS | Mode::ABX | Mode::ABY | Mode::IND => 3,
        _ => 2,
    }
}

fn mode_span(mode: Mode) -> (r: u32)
    ensures
        r == span(mode),
{
    match mode {
        Mode::IMP | Mode::ACC => 1,
        Mode::ABS | Mode::ABX | Mode::ABY | Mode::IND => 3,
        _ => 2,
    }
}

/// The address of the instruction after the one at `a`.
pub open spec fn next_addr<T: IO>(m: T, a: u16) -> int {
    a + span(instruction_of(m.peek(a)).1)
}

/// The assembly text of the instruction at `a`.
pub open spec fn entry_text<T: IO>(m: T, a: u16) -> Seq<char> {
    let ins = instruction_of(m.peek(a));
    let b = m.peek((a + 1) as u16);
    let w = (b + 256 * m.peek((a + 2) as u16)) as u16;
    line_text(ins.0, ins.1, b, w)
}

/// Whether the opcode at `a` and the two bytes after it read quietly.
pub open spec fn quiet3<T: IO>(m: T, a: u16) -> bool {
    !m.volatile(a) && !m.volatile((a + 1) as u16) && !m.volatile((a + 2) as u16)
}

/// Decodes the bus image linearly from $0000 up to $FFFD: each entry is an
/// instruction's address and its assembly text, and the next entry starts
/// right after the instruction's operand.
pub fn disassemble<T: IO>(bus: &mut T) -> (log: Vec<(u16, String)>)
    ensures
        *final(bus) == *old(bus),
        log@.len() > 0,
        log@[0].0 == 0,
        forall|i: int| 0 <= i < log@.len() ==> log@[i].0 <= LAST_ADDR,
        forall|i: int, j: int| 0 <= i < j < log@.len() ==> log@[i].0 < log@[j].0,
        forall|i: int|
            0 <= i < log@.len() && quiet3(*old(bus), log@[i].0) ==> (#[trigger] log@[i]).1@
                == entry_text(*old(bus), log@[i].0),
        forall|i: int|
            0 <= i < log@.len() - 1 && !old(bus).volatile(log@[i].0) ==> (#[trigger] log@[i
                + 1]).0 == next_addr(*old(bus), log@[i].0),
        !old(bus).volatile(log@[log@.len() - 1].0) ==> next_addr(
            *old(bus),
            log@[log@.len() - 1].0,
        ) > LAST_ADDR,
{
    let ghost m = *bus;
    let mut log: Vec<(u16, String)> = Vec::new();
    let mut cur: u32 = 0;
    while cur <= 0xFFFD
        invariant
            *bus == m,
            cur <= 0xFFFD + 3,
            log@.len() == 0 <==> cur == 0,
            log@.len() > 0 ==> log@[0].0 == 0,
            forall|i: int| 0 <= i < log@.len() ==> log@[i].0 < cur && log@[i].0 <= LAST_ADDR,
            forall|i: int, j: int| 0 <= i < j < log@.len() ==> log@[i].0 < log@[j].0,
            forall|i: int|
                0 <= i < log@.len() && quiet3(m, log@[i].0) ==> (#[trigger] log@[i]).1@
                    == entry_text(m, log@[i].0),
            forall|i: int|
                0 <= i < log@.len() - 1 && !m.volatile(log@[i].0) ==> (#[trigger] log@[i
                    + 1]).0 == next_addr(m, log@[i].0),
            log@.len() > 0 && !m.volatile(log@[log@.len() - 1].0) ==> cur == next_addr(
                m,
                log@[log@.len() - 1].0,
            ),
        decreases 0x10000 - cur,
    {
        let a = cur as u16;
        let opcode = bus.read(a);
        let ins = lookup(opcode);
        let op8 = bus.read(a + 1);
        let hi = bus.read(a + 2);
        let op16: u16 = hi as u16 * 256 + op8 as u16;
        let text = to_string(line_chars(ins.0, ins.1, op8, op16));
        let ghost prev = log@;
        log.push((a, text));
        proof {
            assert(log@ == prev.push((a, text)));
            assert(log@[log@.len() - 1].0 == a);
        }
        cur = cur + mode_span(ins.1);
    }
    log
}

impl<T: IO> CPU6502<T> {
    /// The current instruction as assembly text, with the effective operand
    /// address for its operand (the immediate byte for `IMM`, the full
    /// target for a branch); empty before the first instruction.
    pub fn decode_instruction(&mut self) -> (r: String)
        ensures
            *final(self) == *old(self),
            old(self).instruction is None ==> r@.len() == 0,
            old(self).quiet_at(old(self).op_addr) ==> (old(self).instruction matches Some((_, ins)) ==> r@
                == current_text(
                ins.0,
                ins.1,
                if ins.1 == Mode::IMM {
                    old(self).rd(old(self).op_addr)
                } else {
                    (old(self).op_addr % 256) as u8
                },
                old(self).op_addr,
            )),
    {
        match self.instruction {
            Some((_, ins)) => {
                let b = if ins.1 == Mode::IMM {
                    let op_addr = self.op_addr;
                    self.read(op_addr)
                } else {
                    (self.op_addr % 256) as u8
                };
                to_string(current_chars(ins.0, ins.1, b, self.op_addr))
            },
            None => to_string(Vec::new()),
        }
    }
}

} // verus!

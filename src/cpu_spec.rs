use vstd::prelude::*;

use crate::cpu::CPU6502;
use crate::instruction::{instruction_of, Instruction, Mode, Opcode};
use crate::io::IO;
use crate::status::Status;

verus! {

/// The stack cell that a stack pointer designates: page one.
pub open spec fn stack_addr(sp: u8) -> u16 {
    (0x100 + sp as int) as u16
}

/// Whether two addresses lie on different 256-byte pages.
pub open spec fn crosses(a: u16, b: u16) -> bool {
    a / 256 != b / 256
}

/// N and Z as a loaded or computed value sets them.
pub open spec fn nz(p: Status, v: u8) -> Status {
    Status { n: v >= 0x80, z: v == 0, ..p }
}

/// Binary addition with carry: the sum's low byte, the carry out, and
/// whether two operands of one sign gave a result of the other sign.
pub open spec fn add_binary(a: u8, m: u8, c: bool) -> (u8, bool, bool) {
    let sum = a + m + (if c { 1int } else { 0 });
    let r = (sum % 256) as u8;
    (r, sum > 255, (r >= 0x80) != (a >= 0x80) && (r >= 0x80) != (m >= 0x80))
}

/// Decimal addition with carry, digit by digit: the low digits' sum, when
/// over nine, is corrected by six and carries into the high digits; the
/// high digits' sum, when over nine, drops ten and sets the carry.
pub open spec fn add_decimal(a: u8, m: u8, c: bool) -> (u8, bool, bool) {
    let lo = a % 16 + m % 16 + (if c { 1int } else { 0 });
    let lo_carry = if lo > 9 { 1int } else { 0 };
    let lo_digit = if lo > 9 { lo + 6 } else { lo };
    let hi = a / 16 + m / 16 + lo_carry;
    let carry = hi > 9;
    let hi_digit = if hi > 9 { hi - 10 } else { hi };
    let r = ((hi_digit % 16) * 16 + lo_digit % 16) as u8;
    (r, carry, (r >= 0x80) != (a >= 0x80) && (r >= 0x80) != (m >= 0x80))
}

/// The nine's complement of a two-digit decimal byte, digit by digit.
pub open spec fn nines_complement(m: u8) -> u8 {
    (((9 - m / 16) % 16) * 16 + (9 - m % 16) % 16) as u8
}

/// Nine less a digit, modulo 256 and then modulo 16, is nine less the
/// digit modulo 16.
pub proof fn lemma_nine_minus(d: u8)
    requires
        d < 16,
    ensures
        (9u8.wrapping_sub(d) % 16) as int == (9 - d) % 16,
{
    if d > 9 {
        assert(9u8.wrapping_sub(d) == 265 - d);
    }
}

/// The branch condition of a branch operation.
pub open spec fn branch_taken(op: Opcode, p: Status) -> bool {
    match op {
        Opcode::BCC => !p.c,
        Opcode::BCS => p.c,
        Opcode::BEQ => p.z,
        Opcode::BMI => p.n,
        Opcode::BNE => !p.z,
        Opcode::BPL => !p.n,
        Opcode::BVC => !p.v,
        Opcode::BVS => p.v,
        _ => false,
    }
}

pub open spec fn is_branch(op: Opcode) -> bool {
    match op {
        Opcode::BCC | Opcode::BCS | Opcode::BEQ | Opcode::BMI | Opcode::BNE | Opcode::BPL
        | Opcode::BVC | Opcode::BVS => true,
        _ => false,
    }
}

impl<T: IO> CPU6502<T> {
    /// The byte at `addr` as the bus shows it.
    pub open spec fn rd(self, addr: u16) -> u8 {
        self.mem.peek(addr)
    }

    /// The little-endian word at `addr` and the address after it.
    pub open spec fn word_at(self, addr: u16) -> u16 {
        (self.rd(addr) + 256 * self.rd(addr.wrapping_add(1))) as u16
    }

    pub open spec fn poke_mem(self, addr: u16, v: u8) -> Self {
        CPU6502 { mem: self.mem.poke(addr, v), ..self }
    }

    /// Push: write at $0100 + SP, then SP moves down, modulo 256.
    pub open spec fn push(self, v: u8) -> Self {
        CPU6502 {
            mem: self.mem.poke(stack_addr(self.sp), v),
            sp: self.sp.wrapping_sub(1),
            ..self
        }
    }

    /// Pull: SP moves up, modulo 256; then the byte at $0100 + SP.
    pub open spec fn pull(self) -> (Self, u8) {
        let sp = self.sp.wrapping_add(1);
        (CPU6502 { sp, ..self }, self.rd(stack_addr(sp)))
    }

    pub open spec fn with_a(self, v: u8) -> Self {
        CPU6502 { a: v, p: nz(self.p, v), ..self }
    }

    pub open spec fn with_x(self, v: u8) -> Self {
        CPU6502 { x: v, p: nz(self.p, v), ..self }
    }

    pub open spec fn with_y(self, v: u8) -> Self {
        CPU6502 { y: v, p: nz(self.p, v), ..self }
    }

    /// A read-modify-write result: stored at the operand address, with the
    /// new carry, N and Z.
    pub open spec fn store_shifted(self, v: u8, c: bool) -> Self {
        CPU6502 { mem: self.mem.poke(self.op_addr, v), p: nz(Status { c, ..self.p }, v), ..self }
    }

    pub open spec fn acc_shifted(self, v: u8, c: bool) -> Self {
        CPU6502 { a: v, p: nz(Status { c, ..self.p }, v), ..self }
    }

    /// The accumulator and flags after an addition.
    pub open spec fn with_sum(self, r: (u8, bool, bool)) -> Self {
        CPU6502 { a: r.0, p: nz(Status { c: r.1, v: r.2, ..self.p }, r.0), ..self }
    }

    /// A comparison of `r` with the operand.
    pub open spec fn compare(self, r: u8, m: u8) -> Self {
        CPU6502 { p: Status { z: r == m, c: r >= m, n: r.wrapping_sub(m) >= 0x80, ..self.p }, ..self }
    }

    /// A taken branch: one more cycle, and another where the target lies on
    /// another page than the PC after the operand.
    pub open spec fn branch(self, taken: bool) -> Self {
        if taken {
            let extra: int = if crosses(self.pc, self.op_addr) { 2 } else { 1 };
            CPU6502 { cycles_left: (self.cycles_left + extra) as u8, pc: self.op_addr, ..self }
        } else {
            self
        }
    }

    /// Pushes PC (high byte first) and `status`, sets I and jumps through
    /// the vector at `vector`.
    pub open spec fn interrupt(self, vector: u16, status: u8) -> Self {
        let s = self.push((self.pc / 256) as u8).push((self.pc % 256) as u8).push(status);
        CPU6502 { p: Status { i: true, ..s.p }, pc: s.word_at(vector), ..s }
    }

    /// The register that a pulled status byte restores: B clear, U set.
    pub open spec fn restored(v: u8) -> Status {
        Status { b: false, u: true, ..Status::spec_from_bits(v) }
    }

    /// The effect of an addressing mode: the state with PC past the operand
    /// and `op_addr` set, and whether indexing crossed a page.
    pub open spec fn address(self, mode: Mode) -> (Self, bool) {
        let pc1 = self.pc.wrapping_add(1);
        let pc2 = self.pc.wrapping_add(2);
        match mode {
            Mode::IMP | Mode::ACC => (self, false),
            Mode::IMM => (CPU6502 { op_addr: self.pc, pc: pc1, ..self }, false),
            Mode::ABS => (CPU6502 { op_addr: self.word_at(self.pc), pc: pc2, ..self }, false),
            Mode::ABX => {
                let base = self.word_at(self.pc);
                let t = base.wrapping_add(self.x as u16);
                (CPU6502 { op_addr: t, pc: pc2, ..self }, crosses(base, t))
            },
            Mode::ABY => {
                let base = self.word_at(self.pc);
                let t = base.wrapping_add(self.y as u16);
                (CPU6502 { op_addr: t, pc: pc2, ..self }, crosses(base, t))
            },
            Mode::ZPG => (CPU6502 { op_addr: self.rd(self.pc) as u16, pc: pc1, ..self }, false),
            Mode::ZPX => (
                CPU6502 { op_addr: self.rd(self.pc).wrapping_add(self.x) as u16, pc: pc1, ..self },
                false,
            ),
            Mode::ZPY => (
                CPU6502 { op_addr: self.rd(self.pc).wrapping_add(self.y) as u16, pc: pc1, ..self },
                false,
            ),
            Mode::ZIX => {
                let ptr = self.rd(self.pc).wrapping_add(self.x) as u16;
                (CPU6502 { op_addr: self.word_at(ptr), pc: pc1, ..self }, false)
            },
            Mode::ZIY => {
                let base = self.word_at(self.rd(self.pc) as u16);
                let t = base.wrapping_add(self.y as u16);
                (CPU6502 { op_addr: t, pc: pc1, ..self }, crosses(base, t))
            },
            Mode::REL => {
                let off = self.rd(self.pc);
                let disp: int = if off >= 0x80 { off - 256 } else { off as int };
                (CPU6502 { op_addr: ((pc1 + disp) % 65536) as u16, pc: pc1, ..self }, false)
            },
            Mode::IND => (
                CPU6502 { op_addr: self.word_at(self.word_at(self.pc)), pc: pc2, ..self },
                false,
            ),
        }
    }

    /// The effect of an operation, once its operand address is known.
    pub open spec fn operate(self, op: Opcode) -> Self {
        let m = self.rd(self.op_addr);
        let c = self.p.c;
        match op {
            Opcode::ADC => if self.p.d {
                self.with_sum(add_decimal(self.a, m, c))
            } else {
                self.with_sum(add_binary(self.a, m, c))
            },
            Opcode::SBC => if self.p.d {
                self.with_sum(add_decimal(self.a, nines_complement(m), c))
            } else {
                self.with_sum(add_binary(self.a, (255 - m) as u8, c))
            },
            Opcode::AND => self.with_a(self.a & m),
            Opcode::ORA => self.with_a(self.a | m),
            Opcode::EOR => self.with_a(self.a ^ m),
            Opcode::ASL => self.store_shifted(((m % 128) * 2) as u8, m >= 0x80),
            Opcode::ASL_A => self.acc_shifted(((self.a % 128) * 2) as u8, self.a >= 0x80),
            Opcode::LSR => self.store_shifted(m / 2, m % 2 == 1),
            Opcode::LSR_A => self.acc_shifted(self.a / 2, self.a % 2 == 1),
            Opcode::ROL => self.store_shifted(
                ((m % 128) * 2 + (if c { 1int } else { 0 })) as u8,
                m >= 0x80,
            ),
            Opcode::ROL_A => self.acc_shifted(
                ((self.a % 128) * 2 + (if c { 1int } else { 0 })) as u8,
                self.a >= 0x80,
            ),
            Opcode::ROR => self.store_shifted(
                (m / 2 + (if c { 0x80int } else { 0 })) as u8,
                m % 2 == 1,
            ),
            Opcode::ROR_A => self.acc_shifted(
                (self.a / 2 + (if c { 0x80int } else { 0 })) as u8,
                self.a % 2 == 1,
            ),
            Opcode::BCC | Opcode::BCS | Opcode::BEQ | Opcode::BMI | Opcode::BNE | Opcode::BPL
            | Opcode::BVC | Opcode::BVS => self.branch(branch_taken(op, self.p)),
            Opcode::BIT => CPU6502 {
                p: Status { z: self.a & m == 0, v: m & 0x40 != 0, n: m >= 0x80, ..self.p },
                ..self
            },
            Opcode::BRK => {
                let s = CPU6502 {
                    p: Status { b: true, ..self.p },
                    pc: self.pc.wrapping_add(1),
                    ..self
                };
                s.interrupt(0xFFFE, s.p.spec_bits())
            },
            Opcode::CLC => CPU6502 { p: Status { c: false, ..self.p }, ..self },
            Opcode::CLD => CPU6502 { p: Status { d: false, ..self.p }, ..self },
            Opcode::CLI => CPU6502 { p: Status { i: false, ..self.p }, ..self },
            Opcode::CLV => CPU6502 { p: Status { v: false, ..self.p }, ..self },
            Opcode::SEC => CPU6502 { p: Status { c: true, ..self.p }, ..self },
            Opcode::SED => CPU6502 { p: Status { d: true, ..self.p }, ..self },
            Opcode::SEI => CPU6502 { p: Status { i: true, ..self.p }, ..self },
            Opcode::CMP => self.compare(self.a, m),
            Opcode::CPX => self.compare(self.x, m),
            Opcode::CPY => self.compare(self.y, m),
            Opcode::DEC => {
                let r = m.wrapping_sub(1);
                CPU6502 { mem: self.mem.poke(self.op_addr, r), p: nz(self.p, r), ..self }
            },
            Opcode::INC => {
                let r = m.wrapping_add(1);
                CPU6502 { mem: self.mem.poke(self.op_addr, r), p: nz(self.p, r), ..self }
            },
            Opcode::DEX => self.with_x(self.x.wrapping_sub(1)),
            Opcode::DEY => self.with_y(self.y.wrapping_sub(1)),
            Opcode::INX => self.with_x(self.x.wrapping_add(1)),
            Opcode::INY => self.with_y(self.y.wrapping_add(1)),
            Opcode::JMP => CPU6502 { pc: self.op_addr, ..self },
            Opcode::JSR => {
                let ret = self.pc.wrapping_sub(1);
                let s = self.push((ret / 256) as u8).push((ret % 256) as u8);
                CPU6502 { pc: self.op_addr, ..s }
            },
            Opcode::RTI => {
                let (s1, st) = self.pull();
                let (s2, lo) = s1.pull();
                let (s3, hi) = s2.pull();
                CPU6502 { p: Self::restored(st), pc: (lo + 256 * hi) as u16, ..s3 }
            },
            Opcode::RTS => {
                let (s1, lo) = self.pull();
                let (s2, hi) = s1.pull();
                CPU6502 { pc: ((lo + 256 * hi) as u16).wrapping_add(1), ..s2 }
            },
            Opcode::LDA => self.with_a(m),
            Opcode::LDX => self.with_x(m),
            Opcode::LDY => self.with_y(m),
            Opcode::NOP | Opcode::XXX => self,
            Opcode::PHA => self.push(self.a),
            Opcode::PHP => self.push(Status { b: true, u: true, ..self.p }.spec_bits()),
            Opcode::PLA => {
                let (s, v) = self.pull();
                s.with_a(v)
            },
            Opcode::PLP => {
                let (s, v) = self.pull();
                CPU6502 { p: Self::restored(v), ..s }
            },
            Opcode::STA => self.poke_mem(self.op_addr, self.a),
            Opcode::STX => self.poke_mem(self.op_addr, self.x),
            Opcode::STY => self.poke_mem(self.op_addr, self.y),
            Opcode::TAX => self.with_x(self.a),
            Opcode::TAY => self.with_y(self.a),
            Opcode::TSX => self.with_x(self.sp),
            Opcode::TXA => self.with_a(self.x),
            Opcode::TXS => CPU6502 { sp: self.x, ..self },
            Opcode::TYA => self.with_a(self.y),
        }
    }

    /// Whether a read of `a` gives what `rd` shows.
    pub open spec fn quiet_at(self, a: u16) -> bool {
        !self.mem.volatile(a)
    }

    /// Whether every byte that the addressing mode reads is quiet.
    pub open spec fn mode_quiet(self, mode: Mode) -> bool {
        let pc1 = self.pc.wrapping_add(1);
        match mode {
            Mode::IMP | Mode::ACC | Mode::IMM => true,
            Mode::ZPG | Mode::ZPX | Mode::ZPY | Mode::REL => self.quiet_at(self.pc),
            Mode::ABS | Mode::ABX | Mode::ABY => self.quiet_at(self.pc) && self.quiet_at(pc1),
            Mode::IND => {
                let ptr = self.word_at(self.pc);
                self.quiet_at(self.pc) && self.quiet_at(pc1) && self.quiet_at(ptr) && self.quiet_at(
                    ptr.wrapping_add(1),
                )
            },
            Mode::ZIX => {
                let ptr = self.rd(self.pc).wrapping_add(self.x) as u16;
                self.quiet_at(self.pc) && self.quiet_at(ptr) && self.quiet_at(ptr.wrapping_add(1))
            },
            Mode::ZIY => {
                let ptr = self.rd(self.pc) as u16;
                self.quiet_at(self.pc) && self.quiet_at(ptr) && self.quiet_at(ptr.wrapping_add(1))
            },
        }
    }

    /// Whether every byte that the operation reads is quiet.
    pub open spec fn op_quiet(self, op: Opcode) -> bool {
        let s1 = self.sp.wrapping_add(1);
        let s2 = s1.wrapping_add(1);
        let s3 = s2.wrapping_add(1);
        match op {
            Opcode::ADC | Opcode::SBC | Opcode::AND | Opcode::ORA | Opcode::EOR | Opcode::ASL
            | Opcode::LSR | Opcode::ROL | Opcode::ROR | Opcode::BIT | Opcode::CMP | Opcode::CPX
            | Opcode::CPY | Opcode::DEC | Opcode::INC | Opcode::LDA | Opcode::LDX | Opcode::LDY => {
                self.quiet_at(self.op_addr)
            },
            Opcode::PLA | Opcode::PLP => self.quiet_at(stack_addr(s1)),
            Opcode::RTS => self.quiet_at(stack_addr(s1)) && self.quiet_at(stack_addr(s2)),
            Opcode::RTI => self.quiet_at(stack_addr(s1)) && self.quiet_at(stack_addr(s2))
                && self.quiet_at(stack_addr(s3)),
            Opcode::BRK => self.quiet_at(0xFFFE) && self.quiet_at(0xFFFF),
            _ => true,
        }
    }

    /// Whether every byte that an instruction reads, once its opcode has
    /// been fetched, is quiet.
    pub open spec fn execute_quiet(self, ins: Instruction) -> bool {
        self.mode_quiet(ins.1) && self.address(ins.1).0.op_quiet(ins.0)
    }

    /// Whether two states agree on what decides the flow of control and
    /// time: PC, SP, the operand address, the cycles left, the instruction
    /// record and its counters, and the B flag.
    pub open spec fn same_control(self, o: Self) -> bool {
        &&& self.pc == o.pc
        &&& self.sp == o.sp
        &&& self.op_addr == o.op_addr
        &&& self.cycles_left == o.cycles_left
        &&& self.p.b == o.p.b
        &&& self.same_counters(o)
    }

    /// Whether two states agree on the instruction record and the counters.
    pub open spec fn same_counters(self, o: Self) -> bool {
        &&& self.instruction == o.instruction
        &&& self.instructions == o.instructions
        &&& self.cycles == o.cycles
    }

    /// Whether the bytes that decide where the operation leaves PC are
    /// quiet: only `RTS`, `RTI` and `BRK` read them.
    pub open spec fn op_control_quiet(self, op: Opcode) -> bool {
        match op {
            Opcode::RTS | Opcode::RTI | Opcode::BRK => self.op_quiet(op),
            _ => true,
        }
    }

    /// Whether the bytes that decide an instruction's control (see
    /// `same_control`) are quiet, once its opcode has been fetched.
    pub open spec fn execute_control_quiet(self, ins: Instruction) -> bool {
        self.mode_quiet(ins.1) && self.address(ins.1).0.op_control_quiet(ins.0)
    }

    /// Whether the bytes that decide the next instruction's control are
    /// quiet, its opcode included.
    pub open spec fn control_quiet(self) -> bool {
        let t = CPU6502 { cycles: self.cycles.wrapping_add(1), ..self };
        self.quiet_at(self.pc) && t.fetched().execute_control_quiet(
            instruction_of(self.rd(self.pc)),
        )
    }

    /// Whether every byte that the next instruction reads, its opcode
    /// included, is quiet.
    pub open spec fn quiet(self) -> bool {
        let t = CPU6502 { cycles: self.cycles.wrapping_add(1), ..self };
        self.quiet_at(self.pc) && t.fetched().execute_quiet(instruction_of(self.rd(self.pc)))
    }

    /// The penalty cycle of an indexed mode that crossed a page.
    pub open spec fn with_penalty(self, crossed: bool, eligible: bool) -> Self {
        if crossed && eligible {
            CPU6502 { cycles_left: (self.cycles_left + 1) as u8, ..self }
        } else {
            self
        }
    }

    /// One instruction whose opcode has been fetched: addressing mode,
    /// page-crossing penalty, operation.
    pub open spec fn execute_spec(self, ins: Instruction) -> Self {
        let (s, crossed) = self.address(ins.1);
        s.with_penalty(crossed, ins.3).operate(ins.0)
    }

    /// The state after the opcode at PC was fetched and recorded.
    pub open spec fn fetched(self) -> Self {
        let ins = instruction_of(self.rd(self.pc));
        CPU6502 {
            pc: self.pc.wrapping_add(1),
            instruction: Some((self.pc, ins)),
            instructions: self.instructions.wrapping_add(1),
            cycles_left: (ins.2 - 1) as u8,
            ..self
        }
    }

    /// One tick: a tick of an unfinished instruction only counts down;
    /// otherwise the next instruction runs whole and leaves its remaining
    /// cycles to count down.
    #[verifier::opaque]
    pub open spec fn clock_spec(self) -> Self {
        let t = CPU6502 { cycles: self.cycles.wrapping_add(1), ..self };
        if self.cycles_left > 0 {
            CPU6502 { cycles_left: (self.cycles_left - 1) as u8, ..t }
        } else {
            t.fetched().execute_spec(instruction_of(self.rd(self.pc)))
        }
    }
}

} // verus!

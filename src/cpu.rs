use vstd::prelude::*;

use crate::cpu_spec::{crosses, nz, stack_addr};
use crate::instruction::{instruction_of, lookup, Instruction, Mode, Opcode};
use crate::io::IO;
use crate::status::Status;

verus! {

/// The MOS 6502 processor, attached to a bus `T`.
///
/// What a tick does is `clock_spec` (in `cpu_spec`), over what the bus shows
/// through `IO::peek`. That holds wherever the bytes that the instruction
/// reads are not volatile (`quiet`); a volatile byte, such as the one of an
/// entropy source, may read as anything. PC, SP, the operand address, the
/// cycles left, B and the instruction record still follow `clock_spec`
/// wherever the bytes that decide them are not volatile (`control_quiet`).
pub struct CPU6502<T: IO> {
    /// The bus
    pub mem: T,
    /// Program counter
    pub pc: u16,
    /// Accumulator
    pub a: u8,
    /// X index
    pub x: u8,
    /// Y index
    pub y: u8,
    /// Stack pointer; the stack lives at $0100 + SP
    pub sp: u8,
    /// Processor status
    pub p: Status,
    /// Total cycle count
    pub cycles: u64,
    /// Total number of instructions fetched
    pub instructions: usize,
    /// The current instruction and the address it was fetched from
    pub instruction: Option<(u16, Instruction)>,
    /// The effective operand address of the current instruction
    pub op_addr: u16,
    /// Cycles that the current instruction has still to take
    pub cycles_left: u8,
}

impl<T: IO> CPU6502<T> {
    /// A processor on `mem`, every register and counter at zero.
    pub fn new(mem: T) -> (r: Self)
        ensures
            r.mem == mem,
            r.pc == 0 && r.a == 0 && r.x == 0 && r.y == 0 && r.sp == 0,
            r.p == Status::spec_from_bits(0),
            r.cycles == 0 && r.instructions == 0,
            r.instruction is None,
            r.op_addr == 0 && r.cycles_left == 0,
    {
        CPU6502 {
            mem,
            pc: 0,
            a: 0,
            x: 0,
            y: 0,
            sp: 0,
            p: Status::empty(),
            cycles: 0,
            instructions: 0,
            instruction: None,
            op_addr: 0,
            cycles_left: 0,
        }
    }

    /// Resets the processor: PC from the reset vector at $FFFC/$FFFD, SP at
    /// $FF, only U set in P, the other registers and the current
    /// instruction cleared.
    pub fn reset(&mut self)
        ensures
            !old(self).mem.volatile(0xFFFC) && !old(self).mem.volatile(0xFFFD) ==> final(self).pc
                == old(self).rd(0xFFFC) + 256 * old(self).rd(0xFFFD),
            final(self).sp == 0xFF,
            final(self).p == Status::spec_from_bits(0x20),
            final(self).a == 0 && final(self).x == 0 && final(self).y == 0,
            final(self).instruction is None,
            final(self).op_addr == 0 && final(self).cycles_left == 0,
            final(self).mem == old(self).mem,
            final(self).cycles == old(self).cycles,
            final(self).instructions == old(self).instructions,
    {
        let pc_lo = self.read(0xFFFC) as u16;
        let pc_hi = self.read(0xFFFD) as u16;
        let mut status = Status::empty();
        status.u = true;
        proof {
            status.lemma_bits_round_trip();
            assert(status.spec_bits() == 0x20);
        }
        self.pc = pc_hi * 256 + pc_lo;
        self.a = 0;
        self.x = 0;
        self.y = 0;
        self.sp = 0xFF;
        self.p = status;
        self.instruction = None;
        self.op_addr = 0;
        self.cycles_left = 0;
    }

    /// Runs an instruction whose opcode has been fetched: the addressing
    /// mode, the page-crossing penalty where the entry allows it, then the
    /// operation.
    pub fn execute(&mut self, instruction: Instruction)
        requires
            old(self).cycles_left <= 252,
        ensures
            old(self).execute_quiet(instruction) ==> *final(self) == old(self).execute_spec(
                instruction,
            ),
            old(self).execute_control_quiet(instruction) ==> final(self).same_control(
                old(self).execute_spec(instruction),
            ),
            final(self).same_counters(*old(self)),
            final(self).cycles_left <= old(self).cycles_left + 3,
    {
        proof {
            reveal(CPU6502::execute_spec);
        }
        let (opcode, mode, _cycles, can_cross_page_boundary) = instruction;
        let crossed_page_boundary = self.address_(mode);
        if crossed_page_boundary && can_cross_page_boundary {
            self.cycles_left = self.cycles_left + 1;
        }
        self.operate_(opcode);
    }

    /// Runs the addressing mode `mode`.
    fn address_(&mut self, mode: Mode) -> (crossed: bool)
        ensures
            old(self).mode_quiet(mode) ==> (*final(self), crossed) == old(self).address(mode),
            *final(self) == (CPU6502 { op_addr: final(self).op_addr, ..old(self).address(mode).0 }),
    {
        match mode {
            Mode::ABS => self.abs(),
            Mode::ABX => self.abx(),
            Mode::ABY => self.aby(),
            Mode::IMM => self.imm(),
            Mode::ZPX => self.zpx(),
            Mode::ZPG => self.zpg(),
            Mode::ZPY => self.zpy(),
            Mode::IND => self.ind(),
            Mode::REL => self.rel(),
            Mode::ZIX => self.zix(),
            Mode::ZIY => self.ziy(),
            Mode::ACC => self.acc(),
            Mode::IMP => self.imp(),
        }
    }

    /// Runs the operation `opcode` on the operand address already set.
    fn operate_(&mut self, opcode: Opcode)
        requires
            old(self).cycles_left <= 253,
        ensures
            old(self).op_quiet(opcode) ==> *final(self) == old(self).operate(opcode),
            old(self).op_control_quiet(opcode) ==> final(self).same_control(
                old(self).operate(opcode),
            ),
            final(self).same_counters(*old(self)),
            final(self).cycles_left <= old(self).cycles_left + 2,
    {
        match opcode {
            Opcode::ADC => self.adc(),
            Opcode::AND => self.and(),
            Opcode::ASL => self.asl(),
            Opcode::ASL_A => self.asl_a(),
            Opcode::BCC => self.bcc(),
            Opcode::BCS => self.bcs(),
            Opcode::BEQ => self.beq(),
            Opcode::BIT => self.bit(),
            Opcode::BMI => self.bmi(),
            Opcode::BNE => self.bne(),
            Opcode::BPL => self.bpl(),
            Opcode::BRK => self.brk(),
            Opcode::BVC => self.bvc(),
            Opcode::BVS => self.bvs(),
            Opcode::CLC => self.clc(),
            Opcode::CLD => self.cld(),
            Opcode::CLI => self.cli(),
            Opcode::CLV => self.clv(),
            Opcode::CMP => self.cmp(),
            Opcode::CPX => self.cpx(),
            Opcode::CPY => self.cpy(),
            Opcode::DEC => self.dec(),
            Opcode::DEX => self.dex(),
            Opcode::DEY => self.dey(),
            Opcode::EOR => self.eor(),
            Opcode::INC => self.inc(),
            Opcode::INX => self.inx(),
            Opcode::INY => self.iny(),
            Opcode::JMP => self.jmp(),
            Opcode::JSR => self.jsr(),
            Opcode::LDA => self.lda(),
            Opcode::LDX => self.ldx(),
            Opcode::LDY => self.ldy(),
            Opcode::LSR => self.lsr(),
            Opcode::LSR_A => self.lsr_a(),
            Opcode::NOP => self.nop(),
            Opcode::ORA => self.ora(),
            Opcode::PHA => self.pha(),
            Opcode::PHP => self.php(),
            Opcode::PLA => self.pla(),
            Opcode::PLP => self.plp(),
            Opcode::ROL => self.rol(),
            Opcode::ROL_A => self.rol_a(),
            Opcode::ROR => self.ror(),
            Opcode::ROR_A => self.ror_a(),
            Opcode::RTI => self.rti(),
            Opcode::RTS => self.rts(),
            Opcode::SBC => self.sbc(),
            Opcode::SEC => self.sec(),
            Opcode::SED => self.sed(),
            Opcode::SEI => self.sei(),
            Opcode::STA => self.sta(),
            Opcode::STX => self.stx(),
            Opcode::STY => self.sty(),
            Opcode::TAX => self.tax(),
            Opcode::TAY => self.tay(),
            Opcode::TSX => self.tsx(),
            Opcode::TXA => self.txa(),
            Opcode::TXS => self.txs(),
            Opcode::TYA => self.tya(),
            Opcode::XXX => self.xxx(),
        }
    }

    /// One tick of the clock. An unfinished instruction only counts down;
    /// otherwise the opcode at PC is fetched, recorded and run, and its
    /// cycles less this one are left to count down. The counters wrap.
    pub fn clock(&mut self)
        ensures
            old(self).cycles_left > 0 || old(self).quiet() ==> *final(self)
                == old(self).clock_spec(),
            old(self).cycles_left > 0 ==> *final(self) == (CPU6502 {
                cycles: old(self).cycles.wrapping_add(1),
                cycles_left: (old(self).cycles_left - 1) as u8,
                ..*old(self)
            }),
            old(self).cycles_left == 0 ==> final(self).cycles_left <= 10,
            final(self).cycles == old(self).cycles.wrapping_add(1),
            old(self).cycles_left == 0 && old(self).quiet_at(old(self).pc) ==> {
                &&& final(self).instruction == Some((old(self).pc, instruction_of(old(self).rd(old(self).pc))))
                &&& final(self).instructions == old(self).instructions.wrapping_add(1)
            },
            old(self).cycles_left == 0 && old(self).control_quiet() ==> final(self).same_control(
                old(self).clock_spec(),
            ),
    {
        proof {
            reveal(CPU6502::clock_spec);
        }
        self.cycles = self.cycles.wrapping_add(1);
        if self.cycles_left > 0 {
            self.cycles_left = self.cycles_left - 1;
            return ;
        }
        let ghost t = *self;
        let instruction = self.fetch_();
        let ghost f = *self;
        self.execute(instruction);
        proof {
            assert(t == (CPU6502 { cycles: old(self).cycles.wrapping_add(1), ..*old(self) }));
            if old(self).quiet_at(old(self).pc) {
                assert(f == t.fetched());
                assert(old(self).clock_spec() == f.execute_spec(instruction));
            }
            if old(self).quiet() {
                assert(*self == f.execute_spec(instruction));
            }
            if old(self).control_quiet() {
                assert(f.execute_control_quiet(instruction));
                assert(self.same_control(f.execute_spec(instruction)));
            }
        }
    }

    /// Fetches the opcode at PC, records its table entry and charges its
    /// cycles less the one of this tick.
    fn fetch_(&mut self) -> (r: Instruction)
        requires
            old(self).cycles_left == 0,
        ensures
            !old(self).mem.volatile(old(self).pc) ==> *final(self) == old(self).fetched() && r == instruction_of(
                old(self).rd(old(self).pc),
            ),
            final(self).mem == old(self).mem,
            final(self).cycles_left == r.2 - 1,
            final(self).instruction == Some((old(self).pc, r)),
            final(self).instructions == old(self).instructions.wrapping_add(1),
            final(self).cycles == old(self).cycles,
            2 <= r.2 <= 8,
    {
        let inst_addr = self.pc;
        let opcode = self.pop_u8();
        let instruction = lookup(opcode);
        self.instruction = Some((inst_addr, instruction));
        self.instructions = self.instructions.wrapping_add(1);
        self.cycles_left = instruction.2 - 1;
        instruction
    }

    pub fn cycles(&self) -> (r: u64)
        ensures
            r == self.cycles,
    {
        self.cycles
    }

    /// Halted means B set in P.
    pub fn halted(&self) -> (r: bool)
        ensures
            r == self.p.b,
    {
        self.p.b
    }

    /// IRQ: unless I is set, pushes PC and P with B clear (the other flags
    /// as they stand), jumps through
    /// $FFFE/$FFFF and costs seven cycles.
    pub fn irq(&mut self)
        ensures
            old(self).p.i ==> *final(self) == *old(self),
            !old(self).p.i && old(self).quiet_at(0xFFFE) && old(self).quiet_at(0xFFFF) ==> *final(self) == (CPU6502 {
                cycles_left: 7,
                ..old(self).interrupt(0xFFFE, Status { b: false, ..old(self).p }.spec_bits())
            }),
    {
        if !self.p.i {
            let mut pushed = self.p;
            pushed.b = false;
            let st = pushed.bits();
            self.interrupt_(0xFFFE, st);
            self.cycles_left = 7;
        }
    }

    /// NMI: pushes PC and P with B clear (the other flags as they stand), jumps through $FFFA/$FFFB and costs
    /// seven cycles, whatever I holds.
    pub fn nmi(&mut self)
        ensures
            old(self).quiet_at(0xFFFA) && old(self).quiet_at(0xFFFB) ==> *final(self) == (CPU6502 {
                cycles_left: 7,
                ..old(self).interrupt(0xFFFA, Status { b: false, ..old(self).p }.spec_bits())
            }),
    {
        let mut pushed = self.p;
        pushed.b = false;
        let st = pushed.bits();
        self.interrupt_(0xFFFA, st);
        self.cycles_left = 7;
    }

    // Addressing modes

    /// Implied
    fn imp(&mut self) -> (crossed: bool)
        ensures
            old(self).mode_quiet(Mode::IMP) ==> (*final(self), crossed) == old(self).address(Mode::IMP),
            *final(self) == (CPU6502 { op_addr: final(self).op_addr, ..old(self).address(Mode::IMP).0 }),
    {
        false
    }

    /// Accumulator
    fn acc(&mut self) -> (crossed: bool)
        ensures
            old(self).mode_quiet(Mode::ACC) ==> (*final(self), crossed) == old(self).address(Mode::ACC),
            *final(self) == (CPU6502 { op_addr: final(self).op_addr, ..old(self).address(Mode::ACC).0 }),
    {
        false
    }

    /// Absolute
    fn abs(&mut self) -> (crossed: bool)
        ensures
            old(self).mode_quiet(Mode::ABS) ==> (*final(self), crossed) == old(self).address(Mode::ABS),
            *final(self) == (CPU6502 { op_addr: final(self).op_addr, ..old(self).address(Mode::ABS).0 }),
    {
        self.op_addr = self.pop_u16();
        false
    }

    /// Immediate
    fn imm(&mut self) -> (crossed: bool)
        ensures
            old(self).mode_quiet(Mode::IMM) ==> (*final(self), crossed) == old(self).address(Mode::IMM),
            *final(self) == (CPU6502 { op_addr: final(self).op_addr, ..old(self).address(Mode::IMM).0 }),
    {
        let addr = self.pc;
        self.pc = self.pc.wrapping_add(1);
        self.op_addr = addr;
        false
    }

    /// Absolute indirect: the word at the word after the opcode. The high
    /// byte comes from the pointer plus one, modulo 65536, with no page wrap.
    fn ind(&mut self) -> (crossed: bool)
        ensures
            old(self).mode_quiet(Mode::IND) ==> (*final(self), crossed) == old(self).address(Mode::IND),
            *final(self) == (CPU6502 { op_addr: final(self).op_addr, ..old(self).address(Mode::IND).0 }),
    {
        let addr_ptr = self.pop_u16();
        let lo = self.read(addr_ptr) as u16;
        let hi = self.read(addr_ptr.wrapping_add(1)) as u16;
        self.op_addr = hi * 256 + lo;
        false
    }

    /// Zero page
    fn zpg(&mut self) -> (crossed: bool)
        ensures
            old(self).mode_quiet(Mode::ZPG) ==> (*final(self), crossed) == old(self).address(Mode::ZPG),
            *final(self) == (CPU6502 { op_addr: final(self).op_addr, ..old(self).address(Mode::ZPG).0 }),
    {
        let lo = self.pop_u8();
        self.op_addr = lo as u16;
        false
    }

    /// Zero page, X-indexed: the sum stays on page zero
    fn zpx(&mut self) -> (crossed: bool)
        ensures
            old(self).mode_quiet(Mode::ZPX) ==> (*final(self), crossed) == old(self).address(Mode::ZPX),
            *final(self) == (CPU6502 { op_addr: final(self).op_addr, ..old(self).address(Mode::ZPX).0 }),
    {
        let lo = self.pop_u8();
        self.op_addr = lo.wrapping_add(self.x) as u16;
        false
    }

    /// Zero page, Y-indexed: the sum stays on page zero
    fn zpy(&mut self) -> (crossed: bool)
        ensures
            old(self).mode_quiet(Mode::ZPY) ==> (*final(self), crossed) == old(self).address(Mode::ZPY),
            *final(self) == (CPU6502 { op_addr: final(self).op_addr, ..old(self).address(Mode::ZPY).0 }),
    {
        let lo = self.pop_u8();
        self.op_addr = lo.wrapping_add(self.y) as u16;
        false
    }

    /// Absolute, X-indexed; reports a page crossing
    fn abx(&mut self) -> (crossed: bool)
        ensures
            old(self).mode_quiet(Mode::ABX) ==> (*final(self), crossed) == old(self).address(Mode::ABX),
            *final(self) == (CPU6502 { op_addr: final(self).op_addr, ..old(self).address(Mode::ABX).0 }),
    {
        let abs_addr = self.pop_u16();
        let addr = abs_addr.wrapping_add(self.x as u16);
        self.op_addr = addr;
        self.crossed_page_boundary(abs_addr, addr)
    }

    /// Absolute, Y-indexed; reports a page crossing
    fn aby(&mut self) -> (crossed: bool)
        ensures
            old(self).mode_quiet(Mode::ABY) ==> (*final(self), crossed) == old(self).address(Mode::ABY),
            *final(self) == (CPU6502 { op_addr: final(self).op_addr, ..old(self).address(Mode::ABY).0 }),
    {
        let abs_addr = self.pop_u16();
        let addr = abs_addr.wrapping_add(self.y as u16);
        self.op_addr = addr;
        self.crossed_page_boundary(abs_addr, addr)
    }

    /// Relative: PC plus the sign-extended offset byte
    fn rel(&mut self) -> (crossed: bool)
        ensures
            old(self).mode_quiet(Mode::REL) ==> (*final(self), crossed) == old(self).address(Mode::REL),
            *final(self) == (CPU6502 { op_addr: final(self).op_addr, ..old(self).address(Mode::REL).0 }),
    {
        let offset = self.pop_u8();
        let addr = if offset >= 0x80 {
            self.pc.wrapping_add(0xFF00 + offset as u16)
        } else {
            self.pc.wrapping_add(offset as u16)
        };
        self.op_addr = addr;
        false
    }

    /// Zero page indirect, X-indexed: the word at the zero-page pointer plus X
    fn zix(&mut self) -> (crossed: bool)
        ensures
            old(self).mode_quiet(Mode::ZIX) ==> (*final(self), crossed) == old(self).address(Mode::ZIX),
            *final(self) == (CPU6502 { op_addr: final(self).op_addr, ..old(self).address(Mode::ZIX).0 }),
    {
        let ptr_lo = self.pop_u8();
        let ptr = ptr_lo.wrapping_add(self.x) as u16;
        let lo = self.read(ptr) as u16;
        let hi = self.read(ptr + 1) as u16;
        self.op_addr = hi * 256 + lo;
        false
    }

    /// Zero page indirect, Y-indexed: the word at the zero-page pointer,
    /// plus Y; reports a page crossing
    fn ziy(&mut self) -> (crossed: bool)
        ensures
            old(self).mode_quiet(Mode::ZIY) ==> (*final(self), crossed) == old(self).address(Mode::ZIY),
            *final(self) == (CPU6502 { op_addr: final(self).op_addr, ..old(self).address(Mode::ZIY).0 }),
    {
        let ptr_lo = self.pop_u8();
        let ptr = ptr_lo as u16;
        let lo = self.read(ptr) as u16;
        let hi = self.read(ptr + 1) as u16;
        let abs_addr = hi * 256 + lo;
        let addr = abs_addr.wrapping_add(self.y as u16);
        self.op_addr = addr;
        self.crossed_page_boundary(abs_addr, addr)
    }


    // Operations

    /// ADC: Add with carry, binary or decimal after D
    fn adc(&mut self)
        requires
            old(self).cycles_left <= 253,
        ensures
            old(self).op_quiet(Opcode::ADC) ==> *final(self) == old(self).operate(Opcode::ADC),
            old(self).op_control_quiet(Opcode::ADC) ==> final(self).same_control(
                old(self).operate(Opcode::ADC),
            ),
            final(self).same_counters(*old(self)),
            final(self).cycles_left <= old(self).cycles_left + 2,
    {
        let acc = self.a;
        let op = self.read(self.op_addr);
        if !self.p.d {
            self.add_a_(acc, op);
        } else {
            self.add_dec_(acc, op);
        }
    }

    /// AND: Logical AND into A
    fn and(&mut self)
        requires
            old(self).cycles_left <= 253,
        ensures
            old(self).op_quiet(Opcode::AND) ==> *final(self) == old(self).operate(Opcode::AND),
            old(self).op_control_quiet(Opcode::AND) ==> final(self).same_control(
                old(self).operate(Opcode::AND),
            ),
            final(self).same_counters(*old(self)),
            final(self).cycles_left <= old(self).cycles_left + 2,
    {
        let byte = self.read(self.op_addr);
        let v = self.a & byte;
        self.a = v;
        self.set_arithmetic_status(v);
    }

    /// ASL: Arithmetic shift left of memory
    fn asl(&mut self)
        requires
            old(self).cycles_left <= 253,
        ensures
            old(self).op_quiet(Opcode::ASL) ==> *final(self) == old(self).operate(Opcode::ASL),
            old(self).op_control_quiet(Opcode::ASL) ==> final(self).same_control(
                old(self).operate(Opcode::ASL),
            ),
            final(self).same_counters(*old(self)),
            final(self).cycles_left <= old(self).cycles_left + 2,
    {
        let byte = self.read(self.op_addr);
        let v = self.asl_(byte);
        self.write(self.op_addr, v);
        self.set_arithmetic_status(v);
    }

    /// ASL_A: Arithmetic shift left of A
    fn asl_a(&mut self)
        requires
            old(self).cycles_left <= 253,
        ensures
            old(self).op_quiet(Opcode::ASL_A) ==> *final(self) == old(self).operate(Opcode::ASL_A),
            old(self).op_control_quiet(Opcode::ASL_A) ==> final(self).same_control(
                old(self).operate(Opcode::ASL_A),
            ),
            final(self).same_counters(*old(self)),
            final(self).cycles_left <= old(self).cycles_left + 2,
    {
        let acc = self.a;
        let v = self.asl_(acc);
        self.a = v;
        self.set_arithmetic_status(v);
    }

    /// BCC: Branch if carry clear
    fn bcc(&mut self)
        requires
            old(self).cycles_left <= 253,
        ensures
            old(self).op_quiet(Opcode::BCC) ==> *final(self) == old(self).operate(Opcode::BCC),
            old(self).op_control_quiet(Opcode::BCC) ==> final(self).same_control(
                old(self).operate(Opcode::BCC),
            ),
            final(self).same_counters(*old(self)),
            final(self).cycles_left <= old(self).cycles_left + 2,
    {
        let ghost s0 = *self;
        if !self.p.c {
            self.cycles_left = self.cycles_left + 1;
            self.branch_();
            assert(*self == s0.branch(true));
        } else {
            assert(*self == s0.branch(false));
        }
    }

    /// BCS: Branch if carry set
    fn bcs(&mut self)
        requires
            old(self).cycles_left <= 253,
        ensures
            old(self).op_quiet(Opcode::BCS) ==> *final(self) == old(self).operate(Opcode::BCS),
            old(self).op_control_quiet(Opcode::BCS) ==> final(self).same_control(
                old(self).operate(Opcode::BCS),
            ),
            final(self).same_counters(*old(self)),
            final(self).cycles_left <= old(self).cycles_left + 2,
    {
        let ghost s0 = *self;
        if self.p.c {
            self.cycles_left = self.cycles_left + 1;
            self.branch_();
            assert(*self == s0.branch(true));
        } else {
            assert(*self == s0.branch(false));
        }
    }

    /// BEQ: Branch if equal
    fn beq(&mut self)
        requires
            old(self).cycles_left <= 253,
        ensures
            old(self).op_quiet(Opcode::BEQ) ==> *final(self) == old(self).operate(Opcode::BEQ),
            old(self).op_control_quiet(Opcode::BEQ) ==> final(self).same_control(
                old(self).operate(Opcode::BEQ),
            ),
            final(self).same_counters(*old(self)),
            final(self).cycles_left <= old(self).cycles_left + 2,
    {
        let ghost s0 = *self;
        if self.p.z {
            self.cycles_left = self.cycles_left + 1;
            self.branch_();
            assert(*self == s0.branch(true));
        } else {
            assert(*self == s0.branch(false));
        }
    }

    /// BIT: Test bits: Z from A AND M, V and N from bits 6 and 7 of M
    fn bit(&mut self)
        requires
            old(self).cycles_left <= 253,
        ensures
            old(self).op_quiet(Opcode::BIT) ==> *final(self) == old(self).operate(Opcode::BIT),
            old(self).op_control_quiet(Opcode::BIT) ==> final(self).same_control(
                old(self).operate(Opcode::BIT),
            ),
            final(self).same_counters(*old(self)),
            final(self).cycles_left <= old(self).cycles_left + 2,
    {
        let byte = self.read(self.op_addr);
        self.p.z = self.a & byte == 0;
        self.p.v = byte & 0x40 != 0;
        self.p.n = byte >= 0x80;
    }

    /// BMI: Branch if minus
    fn bmi(&mut self)
        requires
            old(self).cycles_left <= 253,
        ensures
            old(self).op_quiet(Opcode::BMI) ==> *final(self) == old(self).operate(Opcode::BMI),
            old(self).op_control_quiet(Opcode::BMI) ==> final(self).same_control(
                old(self).operate(Opcode::BMI),
            ),
            final(self).same_counters(*old(self)),
            final(self).cycles_left <= old(self).cycles_left + 2,
    {
        let ghost s0 = *self;
        if self.p.n {
            self.cycles_left = self.cycles_left + 1;
            self.branch_();
            assert(*self == s0.branch(true));
        } else {
            assert(*self == s0.branch(false));
        }
    }

    /// BNE: Branch if not equal
    fn bne(&mut self)
        requires
            old(self).cycles_left <= 253,
        ensures
            old(self).op_quiet(Opcode::BNE) ==> *final(self) == old(self).operate(Opcode::BNE),
            old(self).op_control_quiet(Opcode::BNE) ==> final(self).same_control(
                old(self).operate(Opcode::BNE),
            ),
            final(self).same_counters(*old(self)),
            final(self).cycles_left <= old(self).cycles_left + 2,
    {
        let ghost s0 = *self;
        if !self.p.z {
            self.cycles_left = self.cycles_left + 1;
            self.branch_();
            assert(*self == s0.branch(true));
        } else {
            assert(*self == s0.branch(false));
        }
    }

    /// BPL: Branch if plus
    fn bpl(&mut self)
        requires
            old(self).cycles_left <= 253,
        ensures
            old(self).op_quiet(Opcode::BPL) ==> *final(self) == old(self).operate(Opcode::BPL),
            old(self).op_control_quiet(Opcode::BPL) ==> final(self).same_control(
                old(self).operate(Opcode::BPL),
            ),
            final(self).same_counters(*old(self)),
            final(self).cycles_left <= old(self).cycles_left + 2,
    {
        let ghost s0 = *self;
        if !self.p.n {
            self.cycles_left = self.cycles_left + 1;
            self.branch_();
            assert(*self == s0.branch(true));
        } else {
            assert(*self == s0.branch(false));
        }
    }

    /// BRK: Break: set B, skip the padding byte, interrupt through $FFFE
    fn brk(&mut self)
        requires
            old(self).cycles_left <= 253,
        ensures
            old(self).op_quiet(Opcode::BRK) ==> *final(self) == old(self).operate(Opcode::BRK),
            old(self).op_control_quiet(Opcode::BRK) ==> final(self).same_control(
                old(self).operate(Opcode::BRK),
            ),
            final(self).same_counters(*old(self)),
            final(self).cycles_left <= old(self).cycles_left + 2,
    {
        self.p.b = true;
        self.pc = self.pc.wrapping_add(1);
        let st = self.p.bits();
        self.interrupt_(0xFFFE, st);
    }

    /// BVC: Branch if overflow clear
    fn bvc(&mut self)
        requires
            old(self).cycles_left <= 253,
        ensures
            old(self).op_quiet(Opcode::BVC) ==> *final(self) == old(self).operate(Opcode::BVC),
            old(self).op_control_quiet(Opcode::BVC) ==> final(self).same_control(
                old(self).operate(Opcode::BVC),
            ),
            final(self).same_counters(*old(self)),
            final(self).cycles_left <= old(self).cycles_left + 2,
    {
        let ghost s0 = *self;
        if !self.p.v {
            self.cycles_left = self.cycles_left + 1;
            self.branch_();
            assert(*self == s0.branch(true));
        } else {
            assert(*self == s0.branch(false));
        }
    }

    /// BVS: Branch if overflow set
    fn bvs(&mut self)
        requires
            old(self).cycles_left <= 253,
        ensures
            old(self).op_quiet(Opcode::BVS) ==> *final(self) == old(self).operate(Opcode::BVS),
            old(self).op_control_quiet(Opcode::BVS) ==> final(self).same_control(
                old(self).operate(Opcode::BVS),
            ),
            final(self).same_counters(*old(self)),
            final(self).cycles_left <= old(self).cycles_left + 2,
    {
        let ghost s0 = *self;
        if self.p.v {
            self.cycles_left = self.cycles_left + 1;
            self.branch_();
            assert(*self == s0.branch(true));
        } else {
            assert(*self == s0.branch(false));
        }
    }

    /// CLC: Clear carry
    fn clc(&mut self)
        requires
            old(self).cycles_left <= 253,
        ensures
            old(self).op_quiet(Opcode::CLC) ==> *final(self) == old(self).operate(Opcode::CLC),
            old(self).op_control_quiet(Opcode::CLC) ==> final(self).same_control(
                old(self).operate(Opcode::CLC),
            ),
            final(self).same_counters(*old(self)),
            final(self).cycles_left <= old(self).cycles_left + 2,
    {
        self.p.c = false;
    }

    /// CLD: Clear decimal
    fn cld(&mut self)
        requires
            old(self).cycles_left <= 253,
        ensures
            old(self).op_quiet(Opcode::CLD) ==> *final(self) == old(self).operate(Opcode::CLD),
            old(self).op_control_quiet(Opcode::CLD) ==> final(self).same_control(
                old(self).operate(Opcode::CLD),
            ),
            final(self).same_counters(*old(self)),
            final(self).cycles_left <= old(self).cycles_left + 2,
    {
        self.p.d = false;
    }

    /// CLI: Clear interrupt disable
    fn cli(&mut self)
        requires
            old(self).cycles_left <= 253,
        ensures
            old(self).op_quiet(Opcode::CLI) ==> *final(self) == old(self).operate(Opcode::CLI),
            old(self).op_control_quiet(Opcode::CLI) ==> final(self).same_control(
                old(self).operate(Opcode::CLI),
            ),
            final(self).same_counters(*old(self)),
            final(self).cycles_left <= old(self).cycles_left + 2,
    {
        self.p.i = false;
    }

    /// CLV: Clear overflow
    fn clv(&mut self)
        requires
            old(self).cycles_left <= 253,
        ensures
            old(self).op_quiet(Opcode::CLV) ==> *final(self) == old(self).operate(Opcode::CLV),
            old(self).op_control_quiet(Opcode::CLV) ==> final(self).same_control(
                old(self).operate(Opcode::CLV),
            ),
            final(self).same_counters(*old(self)),
            final(self).cycles_left <= old(self).cycles_left + 2,
    {
        self.p.v = false;
    }

    /// CMP: Compare A
    fn cmp(&mut self)
        requires
            old(self).cycles_left <= 253,
        ensures
            old(self).op_quiet(Opcode::CMP) ==> *final(self) == old(self).operate(Opcode::CMP),
            old(self).op_control_quiet(Opcode::CMP) ==> final(self).same_control(
                old(self).operate(Opcode::CMP),
            ),
            final(self).same_counters(*old(self)),
            final(self).cycles_left <= old(self).cycles_left + 2,
    {
        let r = self.a;
        self.cmp_(r);
    }

    /// CPX: Compare X
    fn cpx(&mut self)
        requires
            old(self).cycles_left <= 253,
        ensures
            old(self).op_quiet(Opcode::CPX) ==> *final(self) == old(self).operate(Opcode::CPX),
            old(self).op_control_quiet(Opcode::CPX) ==> final(self).same_control(
                old(self).operate(Opcode::CPX),
            ),
            final(self).same_counters(*old(self)),
            final(self).cycles_left <= old(self).cycles_left + 2,
    {
        let r = self.x;
        self.cmp_(r);
    }

    /// CPY: Compare Y
    fn cpy(&mut self)
        requires
            old(self).cycles_left <= 253,
        ensures
            old(self).op_quiet(Opcode::CPY) ==> *final(self) == old(self).operate(Opcode::CPY),
            old(self).op_control_quiet(Opcode::CPY) ==> final(self).same_control(
                old(self).operate(Opcode::CPY),
            ),
            final(self).same_counters(*old(self)),
            final(self).cycles_left <= old(self).cycles_left + 2,
    {
        let r = self.y;
        self.cmp_(r);
    }

    /// DEC: Decrement memory
    fn dec(&mut self)
        requires
            old(self).cycles_left <= 253,
        ensures
            old(self).op_quiet(Opcode::DEC) ==> *final(self) == old(self).operate(Opcode::DEC),
            old(self).op_control_quiet(Opcode::DEC) ==> final(self).same_control(
                old(self).operate(Opcode::DEC),
            ),
            final(self).same_counters(*old(self)),
            final(self).cycles_left <= old(self).cycles_left + 2,
    {
        let v = self.read(self.op_addr).wrapping_sub(1);
        self.write(self.op_addr, v);
        self.set_arithmetic_status(v);
    }

    /// DEX: Decrement X
    fn dex(&mut self)
        requires
            old(self).cycles_left <= 253,
        ensures
            old(self).op_quiet(Opcode::DEX) ==> *final(self) == old(self).operate(Opcode::DEX),
            old(self).op_control_quiet(Opcode::DEX) ==> final(self).same_control(
                old(self).operate(Opcode::DEX),
            ),
            final(self).same_counters(*old(self)),
            final(self).cycles_left <= old(self).cycles_left + 2,
    {
        let v = self.x.wrapping_sub(1);
        self.x = v;
        self.set_arithmetic_status(v);
    }

    /// DEY: Decrement Y
    fn dey(&mut self)
        requires
            old(self).cycles_left <= 253,
        ensures
            old(self).op_quiet(Opcode::DEY) ==> *final(self) == old(self).operate(Opcode::DEY),
            old(self).op_control_quiet(Opcode::DEY) ==> final(self).same_control(
                old(self).operate(Opcode::DEY),
            ),
            final(self).same_counters(*old(self)),
            final(self).cycles_left <= old(self).cycles_left + 2,
    {
        let v = self.y.wrapping_sub(1);
        self.y = v;
        self.set_arithmetic_status(v);
    }

    /// EOR: Exclusive OR into A
    fn eor(&mut self)
        requires
            old(self).cycles_left <= 253,
        ensures
            old(self).op_quiet(Opcode::EOR) ==> *final(self) == old(self).operate(Opcode::EOR),
            old(self).op_control_quiet(Opcode::EOR) ==> final(self).same_control(
                old(self).operate(Opcode::EOR),
            ),
            final(self).same_counters(*old(self)),
            final(self).cycles_left <= old(self).cycles_left + 2,
    {
        let byte = self.read(self.op_addr);
        let v = self.a ^ byte;
        self.a = v;
        self.set_arithmetic_status(v);
    }

    /// INC: Increment memory
    fn inc(&mut self)
        requires
            old(self).cycles_left <= 253,
        ensures
            old(self).op_quiet(Opcode::INC) ==> *final(self) == old(self).operate(Opcode::INC),
            old(self).op_control_quiet(Opcode::INC) ==> final(self).same_control(
                old(self).operate(Opcode::INC),
            ),
            final(self).same_counters(*old(self)),
            final(self).cycles_left <= old(self).cycles_left + 2,
    {
        let v = self.read(self.op_addr).wrapping_add(1);
        self.write(self.op_addr, v);
        self.set_arithmetic_status(v);
    }

    /// INX: Increment X
    fn inx(&mut self)
        requires
            old(self).cycles_left <= 253,
        ensures
            old(self).op_quiet(Opcode::INX) ==> *final(self) == old(self).operate(Opcode::INX),
            old(self).op_control_quiet(Opcode::INX) ==> final(self).same_control(
                old(self).operate(Opcode::INX),
            ),
            final(self).same_counters(*old(self)),
            final(self).cycles_left <= old(self).cycles_left + 2,
    {
        let v = self.x.wrapping_add(1);
        self.x = v;
        self.set_arithmetic_status(v);
    }

    /// INY: Increment Y
    fn iny(&mut self)
        requires
            old(self).cycles_left <= 253,
        ensures
            old(self).op_quiet(Opcode::INY) ==> *final(self) == old(self).operate(Opcode::INY),
            old(self).op_control_quiet(Opcode::INY) ==> final(self).same_control(
                old(self).operate(Opcode::INY),
            ),
            final(self).same_counters(*old(self)),
            final(self).cycles_left <= old(self).cycles_left + 2,
    {
        let v = self.y.wrapping_add(1);
        self.y = v;
        self.set_arithmetic_status(v);
    }

    /// JMP: Jump
    fn jmp(&mut self)
        requires
            old(self).cycles_left <= 253,
        ensures
            old(self).op_quiet(Opcode::JMP) ==> *final(self) == old(self).operate(Opcode::JMP),
            old(self).op_control_quiet(Opcode::JMP) ==> final(self).same_control(
                old(self).operate(Opcode::JMP),
            ),
            final(self).same_counters(*old(self)),
            final(self).cycles_left <= old(self).cycles_left + 2,
    {
        self.pc = self.op_addr;
    }

    /// JSR: Jump to subroutine: push PC - 1, high byte first
    fn jsr(&mut self)
        requires
            old(self).cycles_left <= 253,
        ensures
            old(self).op_quiet(Opcode::JSR) ==> *final(self) == old(self).operate(Opcode::JSR),
            old(self).op_control_quiet(Opcode::JSR) ==> final(self).same_control(
                old(self).operate(Opcode::JSR),
            ),
            final(self).same_counters(*old(self)),
            final(self).cycles_left <= old(self).cycles_left + 2,
    {
        let ret_addr = self.pc.wrapping_sub(1);
        self.push_stack((ret_addr / 256) as u8);
        self.push_stack((ret_addr % 256) as u8);
        self.pc = self.op_addr;
    }

    /// LDA: Load A
    fn lda(&mut self)
        requires
            old(self).cycles_left <= 253,
        ensures
            old(self).op_quiet(Opcode::LDA) ==> *final(self) == old(self).operate(Opcode::LDA),
            old(self).op_control_quiet(Opcode::LDA) ==> final(self).same_control(
                old(self).operate(Opcode::LDA),
            ),
            final(self).same_counters(*old(self)),
            final(self).cycles_left <= old(self).cycles_left + 2,
    {
        let v = self.read(self.op_addr);
        self.a = v;
        self.set_arithmetic_status(v);
    }

    /// LDX: Load X
    fn ldx(&mut self)
        requires
            old(self).cycles_left <= 253,
        ensures
            old(self).op_quiet(Opcode::LDX) ==> *final(self) == old(self).operate(Opcode::LDX),
            old(self).op_control_quiet(Opcode::LDX) ==> final(self).same_control(
                old(self).operate(Opcode::LDX),
            ),
            final(self).same_counters(*old(self)),
            final(self).cycles_left <= old(self).cycles_left + 2,
    {
        let v = self.read(self.op_addr);
        self.x = v;
        self.set_arithmetic_status(v);
    }

    /// LDY: Load Y
    fn ldy(&mut self)
        requires
            old(self).cycles_left <= 253,
        ensures
            old(self).op_quiet(Opcode::LDY) ==> *final(self) == old(self).operate(Opcode::LDY),
            old(self).op_control_quiet(Opcode::LDY) ==> final(self).same_control(
                old(self).operate(Opcode::LDY),
            ),
            final(self).same_counters(*old(self)),
            final(self).cycles_left <= old(self).cycles_left + 2,
    {
        let v = self.read(self.op_addr);
        self.y = v;
        self.set_arithmetic_status(v);
    }

    /// LSR: Logical shift right of memory
    fn lsr(&mut self)
        requires
            old(self).cycles_left <= 253,
        ensures
            old(self).op_quiet(Opcode::LSR) ==> *final(self) == old(self).operate(Opcode::LSR),
            old(self).op_control_quiet(Opcode::LSR) ==> final(self).same_control(
                old(self).operate(Opcode::LSR),
            ),
            final(self).same_counters(*old(self)),
            final(self).cycles_left <= old(self).cycles_left + 2,
    {
        let byte = self.read(self.op_addr);
        let v = self.lsr_(byte);
        self.write(self.op_addr, v);
        self.set_arithmetic_status(v);
    }

    /// LSR_A: Logical shift right of A
    fn lsr_a(&mut self)
        requires
            old(self).cycles_left <= 253,
        ensures
            old(self).op_quiet(Opcode::LSR_A) ==> *final(self) == old(self).operate(Opcode::LSR_A),
            old(self).op_control_quiet(Opcode::LSR_A) ==> final(self).same_control(
                old(self).operate(Opcode::LSR_A),
            ),
            final(self).same_counters(*old(self)),
            final(self).cycles_left <= old(self).cycles_left + 2,
    {
        let acc = self.a;
        let v = self.lsr_(acc);
        self.a = v;
        self.set_arithmetic_status(v);
    }

    /// NOP: No operation
    fn nop(&mut self)
        requires
            old(self).cycles_left <= 253,
        ensures
            old(self).op_quiet(Opcode::NOP) ==> *final(self) == old(self).operate(Opcode::NOP),
            old(self).op_control_quiet(Opcode::NOP) ==> final(self).same_control(
                old(self).operate(Opcode::NOP),
            ),
            final(self).same_counters(*old(self)),
            final(self).cycles_left <= old(self).cycles_left + 2,
    {
        
    }

    /// ORA: Logical OR into A
    fn ora(&mut self)
        requires
            old(self).cycles_left <= 253,
        ensures
            old(self).op_quiet(Opcode::ORA) ==> *final(self) == old(self).operate(Opcode::ORA),
            old(self).op_control_quiet(Opcode::ORA) ==> final(self).same_control(
                old(self).operate(Opcode::ORA),
            ),
            final(self).same_counters(*old(self)),
            final(self).cycles_left <= old(self).cycles_left + 2,
    {
        let byte = self.read(self.op_addr);
        let v = self.a | byte;
        self.a = v;
        self.set_arithmetic_status(v);
    }

    /// PHA: Push A
    fn pha(&mut self)
        requires
            old(self).cycles_left <= 253,
        ensures
            old(self).op_quiet(Opcode::PHA) ==> *final(self) == old(self).operate(Opcode::PHA),
            old(self).op_control_quiet(Opcode::PHA) ==> final(self).same_control(
                old(self).operate(Opcode::PHA),
            ),
            final(self).same_counters(*old(self)),
            final(self).cycles_left <= old(self).cycles_left + 2,
    {
        let v = self.a;
        self.push_stack(v);
    }

    /// PHP: Push P with B and U set
    fn php(&mut self)
        requires
            old(self).cycles_left <= 253,
        ensures
            old(self).op_quiet(Opcode::PHP) ==> *final(self) == old(self).operate(Opcode::PHP),
            old(self).op_control_quiet(Opcode::PHP) ==> final(self).same_control(
                old(self).operate(Opcode::PHP),
            ),
            final(self).same_counters(*old(self)),
            final(self).cycles_left <= old(self).cycles_left + 2,
    {
        let mut pushed = self.p;
        pushed.b = true;
        pushed.u = true;
        let v = pushed.bits();
        self.push_stack(v);
    }

    /// PLA: Pull A
    fn pla(&mut self)
        requires
            old(self).cycles_left <= 253,
        ensures
            old(self).op_quiet(Opcode::PLA) ==> *final(self) == old(self).operate(Opcode::PLA),
            old(self).op_control_quiet(Opcode::PLA) ==> final(self).same_control(
                old(self).operate(Opcode::PLA),
            ),
            final(self).same_counters(*old(self)),
            final(self).cycles_left <= old(self).cycles_left + 2,
    {
        let v = self.pop_stack();
        self.a = v;
        self.set_arithmetic_status(v);
    }

    /// PLP: Pull P, with B cleared and U set
    fn plp(&mut self)
        requires
            old(self).cycles_left <= 253,
        ensures
            old(self).op_quiet(Opcode::PLP) ==> *final(self) == old(self).operate(Opcode::PLP),
            old(self).op_control_quiet(Opcode::PLP) ==> final(self).same_control(
                old(self).operate(Opcode::PLP),
            ),
            final(self).same_counters(*old(self)),
            final(self).cycles_left <= old(self).cycles_left + 2,
    {
        let v = self.pop_stack();
        self.p = Self::restore(v);
    }

    /// ROL: Rotate memory left through carry
    fn rol(&mut self)
        requires
            old(self).cycles_left <= 253,
        ensures
            old(self).op_quiet(Opcode::ROL) ==> *final(self) == old(self).operate(Opcode::ROL),
            old(self).op_control_quiet(Opcode::ROL) ==> final(self).same_control(
                old(self).operate(Opcode::ROL),
            ),
            final(self).same_counters(*old(self)),
            final(self).cycles_left <= old(self).cycles_left + 2,
    {
        let byte = self.read(self.op_addr);
        let v = self.rol_(byte);
        self.write(self.op_addr, v);
        self.set_arithmetic_status(v);
    }

    /// ROL_A: Rotate A left through carry
    fn rol_a(&mut self)
        requires
            old(self).cycles_left <= 253,
        ensures
            old(self).op_quiet(Opcode::ROL_A) ==> *final(self) == old(self).operate(Opcode::ROL_A),
            old(self).op_control_quiet(Opcode::ROL_A) ==> final(self).same_control(
                old(self).operate(Opcode::ROL_A),
            ),
            final(self).same_counters(*old(self)),
            final(self).cycles_left <= old(self).cycles_left + 2,
    {
        let acc = self.a;
        let v = self.rol_(acc);
        self.a = v;
        self.set_arithmetic_status(v);
    }

    /// ROR: Rotate memory right through carry
    fn ror(&mut self)
        requires
            old(self).cycles_left <= 253,
        ensures
            old(self).op_quiet(Opcode::ROR) ==> *final(self) == old(self).operate(Opcode::ROR),
            old(self).op_control_quiet(Opcode::ROR) ==> final(self).same_control(
                old(self).operate(Opcode::ROR),
            ),
            final(self).same_counters(*old(self)),
            final(self).cycles_left <= old(self).cycles_left + 2,
    {
        let byte = self.read(self.op_addr);
        let v = self.ror_(byte);
        self.write(self.op_addr, v);
        self.set_arithmetic_status(v);
    }

    /// ROR_A: Rotate A right through carry
    fn ror_a(&mut self)
        requires
            old(self).cycles_left <= 253,
        ensures
            old(self).op_quiet(Opcode::ROR_A) ==> *final(self) == old(self).operate(Opcode::ROR_A),
            old(self).op_control_quiet(Opcode::ROR_A) ==> final(self).same_control(
                old(self).operate(Opcode::ROR_A),
            ),
            final(self).same_counters(*old(self)),
            final(self).cycles_left <= old(self).cycles_left + 2,
    {
        let acc = self.a;
        let v = self.ror_(acc);
        self.a = v;
        self.set_arithmetic_status(v);
    }

    /// RTI: Return from interrupt: pull P (B cleared, U set), then PC
    fn rti(&mut self)
        requires
            old(self).cycles_left <= 253,
        ensures
            old(self).op_quiet(Opcode::RTI) ==> *final(self) == old(self).operate(Opcode::RTI),
            old(self).op_control_quiet(Opcode::RTI) ==> final(self).same_control(
                old(self).operate(Opcode::RTI),
            ),
            final(self).same_counters(*old(self)),
            final(self).cycles_left <= old(self).cycles_left + 2,
    {
        let status = self.pop_stack();
        self.p = Self::restore(status);
        let pc_lo = self.pop_stack() as u16;
        let pc_hi = self.pop_stack() as u16;
        self.pc = pc_hi * 256 + pc_lo;
    }

    /// RTS: Return from subroutine: pull PC, then add one
    fn rts(&mut self)
        requires
            old(self).cycles_left <= 253,
        ensures
            old(self).op_quiet(Opcode::RTS) ==> *final(self) == old(self).operate(Opcode::RTS),
            old(self).op_control_quiet(Opcode::RTS) ==> final(self).same_control(
                old(self).operate(Opcode::RTS),
            ),
            final(self).same_counters(*old(self)),
            final(self).cycles_left <= old(self).cycles_left + 2,
    {
        let pc_lo = self.pop_stack() as u16;
        let pc_hi = self.pop_stack() as u16;
        let pc: u16 = pc_hi * 256 + pc_lo;
        self.pc = pc.wrapping_add(1);
    }

    /// SBC: Subtract with carry: binary through the one's complement, decimal
    /// through the nine's complement
    fn sbc(&mut self)
        requires
            old(self).cycles_left <= 253,
        ensures
            old(self).op_quiet(Opcode::SBC) ==> *final(self) == old(self).operate(Opcode::SBC),
            old(self).op_control_quiet(Opcode::SBC) ==> final(self).same_control(
                old(self).operate(Opcode::SBC),
            ),
            final(self).same_counters(*old(self)),
            final(self).cycles_left <= old(self).cycles_left + 2,
    {
        let acc = self.a;
        if !self.p.d {
            let op = 255 - self.read(self.op_addr);
            self.add_a_(acc, op);
        } else {
            let op = self.read(self.op_addr);
            let op_lo: u8 = 9u8.wrapping_sub(op % 16) % 16;
            let op_hi: u8 = 9u8.wrapping_sub(op / 16) % 16;
            proof {
                crate::cpu_spec::lemma_nine_minus(op % 16);
                crate::cpu_spec::lemma_nine_minus(op / 16);
            }
            self.add_dec_(acc, op_hi * 16 + op_lo);
        }
    }

    /// SEC: Set carry
    pub fn sec(&mut self)
        requires
            old(self).cycles_left <= 253,
        ensures
            old(self).op_quiet(Opcode::SEC) ==> *final(self) == old(self).operate(Opcode::SEC),
            old(self).op_control_quiet(Opcode::SEC) ==> final(self).same_control(
                old(self).operate(Opcode::SEC),
            ),
            final(self).same_counters(*old(self)),
            final(self).cycles_left <= old(self).cycles_left + 2,
    {
        self.p.c = true;
    }

    /// SED: Set decimal
    pub fn sed(&mut self)
        requires
            old(self).cycles_left <= 253,
        ensures
            old(self).op_quiet(Opcode::SED) ==> *final(self) == old(self).operate(Opcode::SED),
            old(self).op_control_quiet(Opcode::SED) ==> final(self).same_control(
                old(self).operate(Opcode::SED),
            ),
            final(self).same_counters(*old(self)),
            final(self).cycles_left <= old(self).cycles_left + 2,
    {
        self.p.d = true;
    }

    /// SEI: Set interrupt disable
    pub fn sei(&mut self)
        requires
            old(self).cycles_left <= 253,
        ensures
            old(self).op_quiet(Opcode::SEI) ==> *final(self) == old(self).operate(Opcode::SEI),
            old(self).op_control_quiet(Opcode::SEI) ==> final(self).same_control(
                old(self).operate(Opcode::SEI),
            ),
            final(self).same_counters(*old(self)),
            final(self).cycles_left <= old(self).cycles_left + 2,
    {
        self.p.i = true;
    }

    /// STA: Store A
    fn sta(&mut self)
        requires
            old(self).cycles_left <= 253,
        ensures
            old(self).op_quiet(Opcode::STA) ==> *final(self) == old(self).operate(Opcode::STA),
            old(self).op_control_quiet(Opcode::STA) ==> final(self).same_control(
                old(self).operate(Opcode::STA),
            ),
            final(self).same_counters(*old(self)),
            final(self).cycles_left <= old(self).cycles_left + 2,
    {
        let v = self.a;
        self.write(self.op_addr, v);
    }

    /// STX: Store X
    fn stx(&mut self)
        requires
            old(self).cycles_left <= 253,
        ensures
            old(self).op_quiet(Opcode::STX) ==> *final(self) == old(self).operate(Opcode::STX),
            old(self).op_control_quiet(Opcode::STX) ==> final(self).same_control(
                old(self).operate(Opcode::STX),
            ),
            final(self).same_counters(*old(self)),
            final(self).cycles_left <= old(self).cycles_left + 2,
    {
        let v = self.x;
        self.write(self.op_addr, v);
    }

    /// STY: Store Y
    fn sty(&mut self)
        requires
            old(self).cycles_left <= 253,
        ensures
            old(self).op_quiet(Opcode::STY) ==> *final(self) == old(self).operate(Opcode::STY),
            old(self).op_control_quiet(Opcode::STY) ==> final(self).same_control(
                old(self).operate(Opcode::STY),
            ),
            final(self).same_counters(*old(self)),
            final(self).cycles_left <= old(self).cycles_left + 2,
    {
        let v = self.y;
        self.write(self.op_addr, v);
    }

    /// TAX: Transfer A to X
    fn tax(&mut self)
        requires
            old(self).cycles_left <= 253,
        ensures
            old(self).op_quiet(Opcode::TAX) ==> *final(self) == old(self).operate(Opcode::TAX),
            old(self).op_control_quiet(Opcode::TAX) ==> final(self).same_control(
                old(self).operate(Opcode::TAX),
            ),
            final(self).same_counters(*old(self)),
            final(self).cycles_left <= old(self).cycles_left + 2,
    {
        let v = self.a;
        self.x = v;
        self.set_arithmetic_status(v);
    }

    /// TAY: Transfer A to Y
    fn tay(&mut self)
        requires
            old(self).cycles_left <= 253,
        ensures
            old(self).op_quiet(Opcode::TAY) ==> *final(self) == old(self).operate(Opcode::TAY),
            old(self).op_control_quiet(Opcode::TAY) ==> final(self).same_control(
                old(self).operate(Opcode::TAY),
            ),
            final(self).same_counters(*old(self)),
            final(self).cycles_left <= old(self).cycles_left + 2,
    {
        let v = self.a;
        self.y = v;
        self.set_arithmetic_status(v);
    }

    /// TSX: Transfer SP to X
    fn tsx(&mut self)
        requires
            old(self).cycles_left <= 253,
        ensures
            old(self).op_quiet(Opcode::TSX) ==> *final(self) == old(self).operate(Opcode::TSX),
            old(self).op_control_quiet(Opcode::TSX) ==> final(self).same_control(
                old(self).operate(Opcode::TSX),
            ),
            final(self).same_counters(*old(self)),
            final(self).cycles_left <= old(self).cycles_left + 2,
    {
        let v = self.sp;
        self.x = v;
        self.set_arithmetic_status(v);
    }

    /// TXA: Transfer X to A
    fn txa(&mut self)
        requires
            old(self).cycles_left <= 253,
        ensures
            old(self).op_quiet(Opcode::TXA) ==> *final(self) == old(self).operate(Opcode::TXA),
            old(self).op_control_quiet(Opcode::TXA) ==> final(self).same_control(
                old(self).operate(Opcode::TXA),
            ),
            final(self).same_counters(*old(self)),
            final(self).cycles_left <= old(self).cycles_left + 2,
    {
        let v = self.x;
        self.a = v;
        self.set_arithmetic_status(v);
    }

    /// TXS: Transfer X to SP
    fn txs(&mut self)
        requires
            old(self).cycles_left <= 253,
        ensures
            old(self).op_quiet(Opcode::TXS) ==> *final(self) == old(self).operate(Opcode::TXS),
            old(self).op_control_quiet(Opcode::TXS) ==> final(self).same_control(
                old(self).operate(Opcode::TXS),
            ),
            final(self).same_counters(*old(self)),
            final(self).cycles_left <= old(self).cycles_left + 2,
    {
        self.sp = self.x;
    }

    /// TYA: Transfer Y to A
    fn tya(&mut self)
        requires
            old(self).cycles_left <= 253,
        ensures
            old(self).op_quiet(Opcode::TYA) ==> *final(self) == old(self).operate(Opcode::TYA),
            old(self).op_control_quiet(Opcode::TYA) ==> final(self).same_control(
                old(self).operate(Opcode::TYA),
            ),
            final(self).same_counters(*old(self)),
            final(self).cycles_left <= old(self).cycles_left + 2,
    {
        let v = self.y;
        self.a = v;
        self.set_arithmetic_status(v);
    }

    /// XXX: Illegal opcode: its cycles are taken, nothing else happens
    fn xxx(&mut self)
        requires
            old(self).cycles_left <= 253,
        ensures
            old(self).op_quiet(Opcode::XXX) ==> *final(self) == old(self).operate(Opcode::XXX),
            old(self).op_control_quiet(Opcode::XXX) ==> final(self).same_control(
                old(self).operate(Opcode::XXX),
            ),
            final(self).same_counters(*old(self)),
            final(self).cycles_left <= old(self).cycles_left + 2,
    {
        
    }


    // Helpers

    fn add_a_(&mut self, a: u8, m: u8)
        ensures
            *final(self) == old(self).with_sum(crate::cpu_spec::add_binary(a, m, old(self).p.c)),
    {
        let c: u16 = if self.p.c {
            1
        } else {
            0
        };
        let sum: u16 = a as u16 + m as u16 + c;
        let r: u8 = (sum % 256) as u8;
        self.a = r;
        self.p.c = sum > 255;
        self.p.v = (r >= 0x80) != (a >= 0x80) && (r >= 0x80) != (m >= 0x80);
        self.set_arithmetic_status(r);
    }

    fn add_dec_(&mut self, a: u8, m: u8)
        ensures
            *final(self) == old(self).with_sum(crate::cpu_spec::add_decimal(a, m, old(self).p.c)),
    {
        let c: u8 = if self.p.c {
            1
        } else {
            0
        };
        let mut lo_carry: u8 = 0;
        let mut lo_sum: u8 = a % 16 + m % 16 + c;
        if lo_sum > 9 {
            lo_sum = lo_sum + 6;
            lo_carry = 1;
        }
        let mut hi_sum: u8 = a / 16 + m / 16 + lo_carry;
        let carry = hi_sum > 9;
        if hi_sum > 9 {
            hi_sum = hi_sum - 10;
        }
        let sum: u8 = (hi_sum % 16) * 16 + lo_sum % 16;
        self.a = sum;
        self.p.c = carry;
        self.p.v = (sum >= 0x80) != (a >= 0x80) && (sum >= 0x80) != (m >= 0x80);
        self.set_arithmetic_status(sum);
    }

    fn asl_(&mut self, value: u8) -> (r: u8)
        ensures
            r == ((value % 128) * 2) as u8,
            *final(self) == (CPU6502 { p: Status { c: value >= 0x80, ..old(self).p }, ..*old(self) }),
    {
        self.p.c = value >= 0x80;
        (value % 128) * 2
    }

    fn lsr_(&mut self, value: u8) -> (r: u8)
        ensures
            r == value / 2,
            *final(self) == (CPU6502 { p: Status { c: value % 2 == 1, ..old(self).p }, ..*old(self) }),
    {
        self.p.c = value % 2 == 1;
        value / 2
    }

    fn rol_(&mut self, value: u8) -> (r: u8)
        ensures
            r == ((value % 128) * 2 + (if old(self).p.c { 1int } else { 0 })) as u8,
            *final(self) == (CPU6502 { p: Status { c: value >= 0x80, ..old(self).p }, ..*old(self) }),
    {
        let carry_bit: u8 = if self.p.c {
            1
        } else {
            0
        };
        self.p.c = value >= 0x80;
        (value % 128) * 2 + carry_bit
    }

    fn ror_(&mut self, value: u8) -> (r: u8)
        ensures
            r == (value / 2 + (if old(self).p.c { 0x80int } else { 0 })) as u8,
            *final(self) == (CPU6502 { p: Status { c: value % 2 == 1, ..old(self).p }, ..*old(self) }),
    {
        let carry_bit: u8 = if self.p.c {
            0x80
        } else {
            0
        };
        self.p.c = value % 2 == 1;
        value / 2 + carry_bit
    }

    fn cmp_(&mut self, value: u8)
        ensures
            old(self).quiet_at(old(self).op_addr) ==> *final(self) == old(self).compare(
                value,
                old(self).rd(old(self).op_addr),
            ),
            *final(self) == (CPU6502 { p: final(self).p, ..*old(self) }),
            final(self).p.b == old(self).p.b,
    {
        let m = self.read(self.op_addr);
        self.p.z = value == m;
        self.p.c = value >= m;
        self.p.n = value.wrapping_sub(m) >= 0x80;
    }

    fn branch_(&mut self)
        requires
            old(self).cycles_left <= 254,
        ensures
            *final(self) == (CPU6502 {
                cycles_left: (old(self).cycles_left + (if crosses(old(self).pc, old(self).op_addr) {
                    1int
                } else {
                    0
                })) as u8,
                pc: old(self).op_addr,
                ..*old(self)
            }),
    {
        if self.crossed_page_boundary(self.pc, self.op_addr) {
            self.cycles_left = self.cycles_left + 1;
        }
        self.pc = self.op_addr;
    }

    /// Pushes PC, high byte first, and `status`; sets I and loads PC from
    /// the vector at `vector_addr`.
    fn interrupt_(&mut self, vector_addr: u16, status: u8)
        requires
            vector_addr < 0xFFFF,
        ensures
            old(self).quiet_at(vector_addr) && old(self).quiet_at((vector_addr + 1) as u16)
                ==> *final(self) == old(self).interrupt(vector_addr, status),
            *final(self) == (CPU6502 { pc: final(self).pc, ..old(self).interrupt(vector_addr, status) }),
    {
        let pc_hi = (self.pc / 256) as u8;
        let pc_lo = (self.pc % 256) as u8;
        self.push_stack(pc_hi);
        self.push_stack(pc_lo);
        self.push_stack(status);
        let addr_lo = self.read(vector_addr) as u16;
        let addr_hi = self.read(vector_addr + 1) as u16;
        self.p.i = true;
        self.pc = addr_hi * 256 + addr_lo;
    }

    fn crossed_page_boundary(&self, addr1: u16, addr2: u16) -> (r: bool)
        ensures
            r == crosses(addr1, addr2),
    {
        addr1 / 256 != addr2 / 256
    }

    fn set_arithmetic_status(&mut self, val: u8)
        ensures
            *final(self) == (CPU6502 { p: nz(old(self).p, val), ..*old(self) }),
    {
        self.p.n = val >= 0x80;
        self.p.z = val == 0;
    }

    /// The register that a pulled status byte restores: B clear, U set.
    fn restore(v: u8) -> (r: Status)
        ensures
            r == Self::restored(v),
    {
        let mut s = Status::from_bits(v);
        s.b = false;
        s.u = true;
        s
    }

    /// Reads the little-endian word at PC and moves PC past it.
    fn pop_u16(&mut self) -> (r: u16)
        ensures
            *final(self) == (CPU6502 { pc: old(self).pc.wrapping_add(2), ..*old(self) }),
            old(self).quiet_at(old(self).pc) && old(self).quiet_at(old(self).pc.wrapping_add(1))
                ==> r == old(self).word_at(old(self).pc),
    {
        let lo = self.pop_u8() as u16;
        let hi = self.pop_u8() as u16;
        hi * 256 + lo
    }

    /// Reads the byte at PC and moves PC past it.
    fn pop_u8(&mut self) -> (r: u8)
        ensures
            *final(self) == (CPU6502 { pc: old(self).pc.wrapping_add(1), ..*old(self) }),
            old(self).quiet_at(old(self).pc) ==> r == old(self).rd(old(self).pc),
    {
        let b = self.read(self.pc);
        self.pc = self.pc.wrapping_add(1);
        b
    }

    fn push_stack(&mut self, byte: u8)
        ensures
            *final(self) == old(self).push(byte),
            forall|a: u16| #[trigger] final(self).mem.volatile(a) == old(self).mem.volatile(a),
    {
        let stkp: u16 = 0x0100 + self.sp as u16;
        self.write(stkp, byte);
        self.sp = self.sp.wrapping_sub(1);
        proof {
            assert forall|a: u16| #[trigger] self.mem.volatile(a) == old(self).mem.volatile(a) by {
                old(self).mem.lemma_io_laws(stkp, byte, a);
            }
        }
    }

    fn pop_stack(&mut self) -> (r: u8)
        ensures
            *final(self) == old(self).pull().0,
            old(self).quiet_at(stack_addr(old(self).sp.wrapping_add(1))) ==> r == old(self).pull().1,
    {
        self.sp = self.sp.wrapping_add(1);
        let stkp: u16 = 0x0100 + self.sp as u16;
        self.read(stkp)
    }
}

impl<T: IO> IO for CPU6502<T> {
    open spec fn peek(&self, addr: u16) -> u8 {
        self.mem.peek(addr)
    }

    open spec fn volatile(&self, addr: u16) -> bool {
        self.mem.volatile(addr)
    }

    open spec fn poke(&self, addr: u16, data: u8) -> Self {
        CPU6502 { mem: self.mem.poke(addr, data), ..*self }
    }

    open spec fn retains(&self, addr: u16) -> bool {
        self.mem.retains(addr)
    }

    proof fn lemma_io_laws(&self, addr: u16, data: u8, other: u16) {
        self.mem.lemma_io_laws(addr, data, other);
    }

    fn read(&mut self, addr: u16) -> (r: u8) {
        self.mem.read(addr)
    }

    fn write(&mut self, addr: u16, data: u8) {
        self.mem.write(addr, data);
    }
}

} // verus!

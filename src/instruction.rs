use vstd::prelude::*;

verus! {

/// The thirteen ways in which a 6502 instruction locates its operand.
#[allow(non_camel_case_types, clippy::upper_case_acronyms)]
#[derive(Debug, Clone, Copy, PartialEq, Eq, Structural)]
pub enum Mode {
    /// Implied, e.g. `BRK`
    IMP,
    /// Accumulator, e.g. `ASL A`
    ACC,
    /// Immediate, e.g. `LDA #$AA`
    IMM,
    /// Absolute, e.g. `LDA $AAAA`
    ABS,
    /// Absolute, X-indexed, e.g. `LDA $AAAA,X`
    ABX,
    /// Absolute, Y-indexed, e.g. `LDA $AAAA,Y`
    ABY,
    /// Zero page, e.g. `LDA $AA`
    ZPG,
    /// Zero page, X-indexed, e.g. `LDA $AA,X`
    ZPX,
    /// Zero page, Y-indexed, e.g. `LDX $AA,Y`
    ZPY,
    /// Zero page indirect, X-indexed, e.g. `LDA ($AA,X)`
    ZIX,
    /// Zero page indirect, Y-indexed, e.g. `LDA ($AA),Y`
    ZIY,
    /// Relative, e.g. `BEQ $AA`
    REL,
    /// Absolute indirect, e.g. `JMP ($AAAA)`
    IND,
}

/// The legal 6502 operations, with the accumulator forms of the shifts and
/// rotations apart, plus `XXX` for every illegal opcode.
#[allow(non_camel_case_types, clippy::upper_case_acronyms)]
#[derive(Debug, Clone, Copy, PartialEq, Eq, Structural)]
pub enum Opcode {
    /// Add with carry
    ADC,
    /// Logical AND
    AND,
    /// Arithmetic shift left of memory
    ASL,
    /// Arithmetic shift left of the accumulator
    ASL_A,
    /// Branch if carry clear
    BCC,
    /// Branch if carry set
    BCS,
    /// Branch if equal
    BEQ,
    /// Test bits
    BIT,
    /// Branch if minus
    BMI,
    /// Branch if not equal
    BNE,
    /// Branch if plus
    BPL,
    /// Break
    BRK,
    /// Branch if overflow clear
    BVC,
    /// Branch if overflow set
    BVS,
    /// Clear carry
    CLC,
    /// Clear decimal
    CLD,
    /// Clear interrupt disable
    CLI,
    /// Clear overflow
    CLV,
    /// Compare accumulator
    CMP,
    /// Compare X
    CPX,
    /// Compare Y
    CPY,
    /// Decrement memory
    DEC,
    /// Decrement X
    DEX,
    /// Decrement Y
    DEY,
    /// Exclusive OR
    EOR,
    /// Increment memory
    INC,
    /// Increment X
    INX,
    /// Increment Y
    INY,
    /// Jump
    JMP,
    /// Jump to subroutine
    JSR,
    /// Load accumulator
    LDA,
    /// Load X
    LDX,
    /// Load Y
    LDY,
    /// Logical shift right of memory
    LSR,
    /// Logical shift right of the accumulator
    LSR_A,
    /// No operation
    NOP,
    /// Logical OR
    ORA,
    /// Push accumulator
    PHA,
    /// Push processor status
    PHP,
    /// Pull accumulator
    PLA,
    /// Pull processor status
    PLP,
    /// Rotate left through carry, memory
    ROL,
    /// Rotate left through carry, accumulator
    ROL_A,
    /// Rotate right through carry, memory
    ROR,
    /// Rotate right through carry, accumulator
    ROR_A,
    /// Return from interrupt
    RTI,
    /// Return from subroutine
    RTS,
    /// Subtract with carry
    SBC,
    /// Set carry
    SEC,
    /// Set decimal
    SED,
    /// Set interrupt disable
    SEI,
    /// Store accumulator
    STA,
    /// Store X
    STX,
    /// Store Y
    STY,
    /// Transfer accumulator to X
    TAX,
    /// Transfer accumulator to Y
    TAY,
    /// Transfer stack pointer to X
    TSX,
    /// Transfer X to accumulator
    TXA,
    /// Transfer X to stack pointer
    TXS,
    /// Transfer Y to accumulator
    TYA,
    /// Illegal opcode: takes its cycles and does nothing else
    XXX,
}

/// An entry of the opcode table: operation, addressing mode, base cycle
/// count, and whether a page crossing of the operand costs one more cycle.
pub type Instruction = (Opcode, Mode, u8, bool);

/// The opcode table.
#[verifier::opaque]
pub open spec fn instruction_of(opcode: u8) -> Instruction {
    match opcode {
        0x00 => (Opcode::BRK, Mode::IMP, 7, false),
        0x01 => (Opcode::ORA, Mode::ZIX, 6, false),
        0x02 => (Opcode::XXX, Mode::IMP, 2, false),
        0x03 => (Opcode::XXX, Mode::IMP, 8, false),
        0x04 => (Opcode::NOP, Mode::IMP, 3, false),
        0x05 => (Opcode::ORA, Mode::ZPG, 3, false),
        0x06 => (Opcode::ASL, Mode::ZPG, 5, false),
        0x07 => (Opcode::XXX, Mode::IMP, 5, false),
        0x08 => (Opcode::PHP, Mode::IMP, 3, false),
        0x09 => (Opcode::ORA, Mode::IMM, 2, false),
        0x0A => (Opcode::ASL_A, Mode::ACC, 2, false),
        0x0B => (Opcode::XXX, Mode::IMP, 2, false),
        0x0C => (Opcode::NOP, Mode::IMP, 4, false),
        0x0D => (Opcode::ORA, Mode::ABS, 4, false),
        0x0E => (Opcode::ASL, Mode::ABS, 6, false),
        0x0F => (Opcode::XXX, Mode::IMP, 6, false),
        0x10 => (Opcode::BPL, Mode::REL, 2, false),
        0x11 => (Opcode::ORA, Mode::ZIY, 5, true),
        0x12 => (Opcode::XXX, Mode::IMP, 2, false),
        0x13 => (Opcode::XXX, Mode::IMP, 8, false),
        0x14 => (Opcode::NOP, Mode::IMP, 4, false),
        0x15 => (Opcode::ORA, Mode::ZPX, 4, false),
        0x16 => (Opcode::ASL, Mode::ZPX, 6, false),
        0x17 => (Opcode::XXX, Mode::IMP, 6, false),
        0x18 => (Opcode::CLC, Mode::IMP, 2, false),
        0x19 => (Opcode::ORA, Mode::ABY, 4, true),
        0x1A => (Opcode::NOP, Mode::IMP, 2, false),
        0x1B => (Opcode::XXX, Mode::IMP, 7, false),
        0x1C => (Opcode::NOP, Mode::IMP, 4, false),
        0x1D => (Opcode::ORA, Mode::ABX, 4, true),
        0x1E => (Opcode::ASL, Mode::ABX, 7, false),
        0x1F => (Opcode::XXX, Mode::IMP, 7, false),
        0x20 => (Opcode::JSR, Mode::ABS, 6, false),
        0x21 => (Opcode::AND, Mode::ZIX, 6, false),
        0x22 => (Opcode::XXX, Mode::IMP, 2, false),
        0x23 => (Opcode::XXX, Mode::IMP, 8, false),
        0x24 => (Opcode::BIT, Mode::ZPG, 3, false),
        0x25 => (Opcode::AND, Mode::ZPG, 3, false),
        0x26 => (Opcode::ROL, Mode::ZPG, 5, false),
        0x27 => (Opcode::XXX, Mode::IMP, 5, false),
        0x28 => (Opcode::PLP, Mode::IMP, 4, false),
        0x29 => (Opcode::AND, Mode::IMM, 2, false),
        0x2A => (Opcode::ROL_A, Mode::ACC, 2, false),
        0x2B => (Opcode::XXX, Mode::IMP, 2, false),
        0x2C => (Opcode::BIT, Mode::ABS, 4, false),
        0x2D => (Opcode::AND, Mode::ABS, 4, false),
        0x2E => (Opcode::ROL, Mode::ABS, 6, false),
        0x2F => (Opcode::XXX, Mode::IMP, 6, false),
        0x30 => (Opcode::BMI, Mode::REL, 2, false),
        0x31 => (Opcode::AND, Mode::ZIY, 5, true),
        0x32 => (Opcode::XXX, Mode::IMP, 2, false),
        0x33 => (Opcode::XXX, Mode::IMP, 8, false),
        0x34 => (Opcode::NOP, Mode::IMP, 4, false),
        0x35 => (Opcode::AND, Mode::ZPX, 4, false),
        0x36 => (Opcode::ROL, Mode::ZPX, 6, false),
        0x37 => (Opcode::XXX, Mode::IMP, 6, false),
        0x38 => (Opcode::SEC, Mode::IMP, 2, false),
        0x39 => (Opcode::AND, Mode::ABY, 4, true),
        0x3A => (Opcode::NOP, Mode::IMP, 2, false),
        0x3B => (Opcode::XXX, Mode::IMP, 7, false),
        0x3C => (Opcode::NOP, Mode::IMP, 4, false),
        0x3D => (Opcode::AND, Mode::ABX, 4, true),
        0x3E => (Opcode::ROL, Mode::ABX, 7, false),
        0x3F => (Opcode::XXX, Mode::IMP, 7, false),
        0x40 => (Opcode::RTI, Mode::IMP, 6, false),
        0x41 => (Opcode::EOR, Mode::ZIX, 6, false),
        0x42 => (Opcode::XXX, Mode::IMP, 2, false),
        0x43 => (Opcode::XXX, Mode::IMP, 8, false),
        0x44 => (Opcode::NOP, Mode::IMP, 3, false),
        0x45 => (Opcode::EOR, Mode::ZPG, 3, false),
        0x46 => (Opcode::LSR, Mode::ZPG, 5, false),
        0x47 => (Opcode::XXX, Mode::IMP, 5, false),
        0x48 => (Opcode::PHA, Mode::IMP, 3, false),
        0x49 => (Opcode::EOR, Mode::IMM, 2, false),
        0x4A => (Opcode::LSR_A, Mode::ACC, 2, false),
        0x4B => (Opcode::XXX, Mode::IMP, 2, false),
        0x4C => (Opcode::JMP, Mode::ABS, 3, false),
        0x4D => (Opcode::EOR, Mode::ABS, 4, false),
        0x4E => (Opcode::LSR, Mode::ABS, 6, false),
        0x4F => (Opcode::XXX, Mode::IMP, 6, false),
        0x50 => (Opcode::BVC, Mode::REL, 2, true),
        0x51 => (Opcode::EOR, Mode::ZIY, 5, true),
        0x52 => (Opcode::XXX, Mode::IMP, 2, false),
        0x53 => (Opcode::XXX, Mode::IMP, 8, false),
        0x54 => (Opcode::NOP, Mode::IMP, 4, false),
        0x55 => (Opcode::EOR, Mode::ZPX, 4, false),
        0x56 => (Opcode::LSR, Mode::ZPX, 6, false),
        0x57 => (Opcode::XXX, Mode::IMP, 6, false),
        0x58 => (Opcode::CLI, Mode::IMP, 2, false),
        0x59 => (Opcode::EOR, Mode::ABY, 4, true),
        0x5A => (Opcode::NOP, Mode::IMP, 2, false),
        0x5B => (Opcode::XXX, Mode::IMP, 7, false),
        0x5C => (Opcode::NOP, Mode::IMP, 4, false),
        0x5D => (Opcode::EOR, Mode::ABX, 4, true),
        0x5E => (Opcode::LSR, Mode::ABX, 7, false),
        0x5F => (Opcode::XXX, Mode::IMP, 7, false),
        0x60 => (Opcode::RTS, Mode::IMP, 6, false),
        0x61 => (Opcode::ADC, Mode::ZIX, 6, false),
        0x62 => (Opcode::XXX, Mode::IMP, 2, false),
        0x63 => (Opcode::XXX, Mode::IMP, 8, false),
        0x64 => (Opcode::NOP, Mode::IMP, 3, false),
        0x65 => (Opcode::ADC, Mode::ZPG, 3, false),
        0x66 => (Opcode::ROR, Mode::ZPG, 5, false),
        0x67 => (Opcode::XXX, Mode::IMP, 5, false),
        0x68 => (Opcode::PLA, Mode::IMP, 4, false),
        0x69 => (Opcode::ADC, Mode::IMM, 2, false),
        0x6A => (Opcode::ROR_A, Mode::ACC, 2, false),
        0x6B => (Opcode::XXX, Mode::IMP, 2, false),
        0x6C => (Opcode::JMP, Mode::IND, 5, false),
        0x6D => (Opcode::ADC, Mode::ABS, 4, false),
        0x6E => (Opcode::ROR, Mode::ABS, 6, false),
        0x6F => (Opcode::XXX, Mode::IMP, 6, false),
        0x70 => (Opcode::BVS, Mode::REL, 2, true),
        0x71 => (Opcode::ADC, Mode::ZIY, 5, true),
        0x72 => (Opcode::XXX, Mode::IMP, 2, false),
        0x73 => (Opcode::XXX, Mode::IMP, 8, false),
        0x74 => (Opcode::NOP, Mode::IMP, 4, false),
        0x75 => (Opcode::ADC, Mode::ZPX, 4, false),
        0x76 => (Opcode::ROR, Mode::ZPX, 6, false),
        0x77 => (Opcode::XXX, Mode::IMP, 6, false),
        0x78 => (Opcode::SEI, Mode::IMP, 2, false),
        0x79 => (Opcode::ADC, Mode::ABY, 4, true),
        0x7A => (Opcode::NOP, Mode::IMP, 2, false),
        0x7B => (Opcode::XXX, Mode::IMP, 7, false),
        0x7C => (Opcode::NOP, Mode::IMP, 4, false),
        0x7D => (Opcode::ADC, Mode::ABX, 4, true),
        0x7E => (Opcode::ROR, Mode::ABX, 7, false),
        0x7F => (Opcode::XXX, Mode::IMP, 7, false),
        0x80 => (Opcode::NOP, Mode::IMP, 2, false),
        0x81 => (Opcode::STA, Mode::ZIX, 6, false),
        0x82 => (Opcode::NOP, Mode::IMP, 2, false),
        0x83 => (Opcode::XXX, Mode::IMP, 6, false),
        0x84 => (Opcode::STY, Mode::ZPG, 3, false),
        0x85 => (Opcode::STA, Mode::ZPG, 3, false),
        0x86 => (Opcode::STX, Mode::ZPG, 3, false),
        0x87 => (Opcode::XXX, Mode::IMP, 3, false),
        0x88 => (Opcode::DEY, Mode::IMP, 2, false),
        0x89 => (Opcode::NOP, Mode::IMP, 2, false),
        0x8A => (Opcode::TXA, Mode::IMP, 2, false),
        0x8B => (Opcode::XXX, Mode::IMP, 2, false),
        0x8C => (Opcode::STY, Mode::ABS, 4, false),
        0x8D => (Opcode::STA, Mode::ABS, 4, false),
        0x8E => (Opcode::STX, Mode::ABS, 4, false),
        0x8F => (Opcode::XXX, Mode::IMP, 4, false),
        0x90 => (Opcode::BCC, Mode::REL, 2, true),
        0x91 => (Opcode::STA, Mode::ZIY, 6, false),
        0x92 => (Opcode::XXX, Mode::IMP, 2, false),
        0x93 => (Opcode::XXX, Mode::IMP, 6, false),
        0x94 => (Opcode::STY, Mode::ZPX, 4, false),
        0x95 => (Opcode::STA, Mode::ZPX, 4, false),
        0x96 => (Opcode::STX, Mode::ZPY, 4, false),
        0x97 => (Opcode::XXX, Mode::IMP, 4, false),
        0x98 => (Opcode::TYA, Mode::IMP, 2, false),
        0x99 => (Opcode::STA, Mode::ABY, 5, false),
        0x9A => (Opcode::TXS, Mode::IMP, 2, false),
        0x9B => (Opcode::XXX, Mode::IMP, 5, false),
        0x9C => (Opcode::NOP, Mode::IMP, 5, false),
        0x9D => (Opcode::STA, Mode::ABX, 5, false),
        0x9E => (Opcode::XXX, Mode::IMP, 5, false),
        0x9F => (Opcode::XXX, Mode::IMP, 5, false),
        0xA0 => (Opcode::LDY, Mode::IMM, 2, false),
        0xA1 => (Opcode::LDA, Mode::ZIX, 6, false),
        0xA2 => (Opcode::LDX, Mode::IMM, 2, false),
        0xA3 => (Opcode::XXX, Mode::IMP, 6, false),
        0xA4 => (Opcode::LDY, Mode::ZPG, 3, false),
        0xA5 => (Opcode::LDA, Mode::ZPG, 3, false),
        0xA6 => (Opcode::LDX, Mode::ZPG, 3, false),
        0xA7 => (Opcode::XXX, Mode::IMP, 3, false),
        0xA8 => (Opcode::TAY, Mode::IMP, 2, false),
        0xA9 => (Opcode::LDA, Mode::IMM, 2, false),
        0xAA => (Opcode::TAX, Mode::IMP, 2, false),
        0xAB => (Opcode::XXX, Mode::IMP, 2, false),
        0xAC => (Opcode::LDY, Mode::ABS, 4, false),
        0xAD => (Opcode::LDA, Mode::ABS, 4, false),
        0xAE => (Opcode::LDX, Mode::ABS, 4, false),
        0xAF => (Opcode::XXX, Mode::IMP, 4, false),
        0xB0 => (Opcode::BCS, Mode::REL, 2, true),
        0xB1 => (Opcode::LDA, Mode::ZIY, 5, true),
        0xB2 => (Opcode::XXX, Mode::IMP, 2, false),
        0xB3 => (Opcode::XXX, Mode::IMP, 5, false),
        0xB4 => (Opcode::LDY, Mode::ZPX, 4, false),
        0xB5 => (Opcode::LDA, Mode::ZPX, 4, false),
        0xB6 => (Opcode::LDX, Mode::ZPY, 4, false),
        0xB7 => (Opcode::XXX, Mode::IMP, 4, false),
        0xB8 => (Opcode::CLV, Mode::IMP, 2, false),
        0xB9 => (Opcode::LDA, Mode::ABY, 4, true),
        0xBA => (Opcode::TSX, Mode::IMP, 2, false),
        0xBB => (Opcode::XXX, Mode::IMP, 4, false),
        0xBC => (Opcode::LDY, Mode::ABX, 4, true),
        0xBD => (Opcode::LDA, Mode::ABX, 4, true),
        0xBE => (Opcode::LDX, Mode::ABY, 4, true),
        0xBF => (Opcode::XXX, Mode::IMP, 4, false),
        0xC0 => (Opcode::CPY, Mode::IMM, 2, false),
        0xC1 => (Opcode::CMP, Mode::ZIX, 6, false),
        0xC2 => (Opcode::NOP, Mode::IMP, 2, false),
        0xC3 => (Opcode::XXX, Mode::IMP, 8, false),
        0xC4 => (Opcode::CPY, Mode::ZPG, 3, false),
        0xC5 => (Opcode::CMP, Mode::ZPG, 3, false),
        0xC6 => (Opcode::DEC, Mode::ZPG, 5, false),
        0xC7 => (Opcode::XXX, Mode::IMP, 5, false),
        0xC8 => (Opcode::INY, Mode::IMP, 2, false),
        0xC9 => (Opcode::CMP, Mode::IMM, 2, false),
        0xCA => (Opcode::DEX, Mode::IMP, 2, false),
        0xCB => (Opcode::XXX, Mode::IMP, 2, false),
        0xCC => (Opcode::CPY, Mode::ABS, 4, false),
        0xCD => (Opcode::CMP, Mode::ABS, 4, false),
        0xCE => (Opcode::DEC, Mode::ABS, 6, false),
        0xCF => (Opcode::XXX, Mode::IMP, 6, false),
        0xD0 => (Opcode::BNE, Mode::REL, 2, true),
        0xD1 => (Opcode::CMP, Mode::ZIY, 5, true),
        0xD2 => (Opcode::XXX, Mode::IMP, 2, false),
        0xD3 => (Opcode::XXX, Mode::IMP, 8, false),
        0xD4 => (Opcode::NOP, Mode::IMP, 4, false),
        0xD5 => (Opcode::CMP, Mode::ZPX, 4, false),
        0xD6 => (Opcode::DEC, Mode::ZPX, 6, false),
        0xD7 => (Opcode::XXX, Mode::IMP, 6, false),
        0xD8 => (Opcode::CLD, Mode::IMP, 2, false),
        0xD9 => (Opcode::CMP, Mode::ABY, 4, true),
        0xDA => (Opcode::NOP, Mode::IMP, 2, false),
        0xDB => (Opcode::XXX, Mode::IMP, 7, false),
        0xDC => (Opcode::NOP, Mode::IMP, 4, false),
        0xDD => (Opcode::CMP, Mode::ABX, 4, true),
        0xDE => (Opcode::DEC, Mode::ABX, 7, false),
        0xDF => (Opcode::XXX, Mode::IMP, 7, false),
        0xE0 => (Opcode::CPX, Mode::IMM, 2, false),
        0xE1 => (Opcode::SBC, Mode::ZIX, 6, false),
        0xE2 => (Opcode::NOP, Mode::IMP, 2, false),
        0xE3 => (Opcode::XXX, Mode::IMP, 8, false),
        0xE4 => (Opcode::CPX, Mode::ZPG, 3, false),
        0xE5 => (Opcode::SBC, Mode::ZPG, 3, false),
        0xE6 => (Opcode::INC, Mode::ZPG, 5, false),
        0xE7 => (Opcode::XXX, Mode::IMP, 5, false),
        0xE8 => (Opcode::INX, Mode::IMP, 2, false),
        0xE9 => (Opcode::SBC, Mode::IMM, 2, false),
        0xEA => (Opcode::NOP, Mode::IMP, 2, false),
        0xEB => (Opcode::SBC, Mode::IMP, 2, false),
        0xEC => (Opcode::CPX, Mode::ABS, 4, false),
        0xED => (Opcode::SBC, Mode::ABS, 4, false),
        0xEE => (Opcode::INC, Mode::ABS, 6, false),
        0xEF => (Opcode::XXX, Mode::IMP, 6, false),
        0xF0 => (Opcode::BEQ, Mode::REL, 2, true),
        0xF1 => (Opcode::SBC, Mode::ZIY, 5, true),
        0xF2 => (Opcode::XXX, Mode::IMP, 2, false),
        0xF3 => (Opcode::XXX, Mode::IMP, 8, false),
        0xF4 => (Opcode::NOP, Mode::IMP, 4, false),
        0xF5 => (Opcode::SBC, Mode::ZPX, 4, false),
        0xF6 => (Opcode::INC, Mode::ZPX, 6, false),
        0xF7 => (Opcode::XXX, Mode::IMP, 6, false),
        0xF8 => (Opcode::SED, Mode::IMP, 2, false),
        0xF9 => (Opcode::SBC, Mode::ABY, 4, true),
        0xFA => (Opcode::NOP, Mode::IMP, 2, false),
        0xFB => (Opcode::XXX, Mode::IMP, 7, false),
        0xFC => (Opcode::NOP, Mode::IMP, 4, false),
        0xFD => (Opcode::SBC, Mode::ABX, 4, true),
        0xFE => (Opcode::INC, Mode::ABX, 7, false),
        0xFF => (Opcode::XXX, Mode::IMP, 7, false),
    }
}

/// Looks an opcode byte up in the opcode table.
pub fn lookup(opcode: u8) -> (r: Instruction)
    ensures
        r == instruction_of(opcode),
        2 <= r.2 <= 8,
{
    reveal(instruction_of);
    match opcode {
        0x00 => (Opcode::BRK, Mode::IMP, 7, false),
        0x01 => (Opcode::ORA, Mode::ZIX, 6, false),
        0x02 => (Opcode::XXX, Mode::IMP, 2, false),
        0x03 => (Opcode::XXX, Mode::IMP, 8, false),
        0x04 => (Opcode::NOP, Mode::IMP, 3, false),
        0x05 => (Opcode::ORA, Mode::ZPG, 3, false),
        0x06 => (Opcode::ASL, Mode::ZPG, 5, false),
        0x07 => (Opcode::XXX, Mode::IMP, 5, false),
        0x08 => (Opcode::PHP, Mode::IMP, 3, false),
        0x09 => (Opcode::ORA, Mode::IMM, 2, false),
        0x0A => (Opcode::ASL_A, Mode::ACC, 2, false),
        0x0B => (Opcode::XXX, Mode::IMP, 2, false),
        0x0C => (Opcode::NOP, Mode::IMP, 4, false),
        0x0D => (Opcode::ORA, Mode::ABS, 4, false),
        0x0E => (Opcode::ASL, Mode::ABS, 6, false),
        0x0F => (Opcode::XXX, Mode::IMP, 6, false),
        0x10 => (Opcode::BPL, Mode::REL, 2, false),
        0x11 => (Opcode::ORA, Mode::ZIY, 5, true),
        0x12 => (Opcode::XXX, Mode::IMP, 2, false),
        0x13 => (Opcode::XXX, Mode::IMP, 8, false),
        0x14 => (Opcode::NOP, Mode::IMP, 4, false),
        0x15 => (Opcode::ORA, Mode::ZPX, 4, false),
        0x16 => (Opcode::ASL, Mode::ZPX, 6, false),
        0x17 => (Opcode::XXX, Mode::IMP, 6, false),
        0x18 => (Opcode::CLC, Mode::IMP, 2, false),
        0x19 => (Opcode::ORA, Mode::ABY, 4, true),
        0x1A => (Opcode::NOP, Mode::IMP, 2, false),
        0x1B => (Opcode::XXX, Mode::IMP, 7, false),
        0x1C => (Opcode::NOP, Mode::IMP, 4, false),
        0x1D => (Opcode::ORA, Mode::ABX, 4, true),
        0x1E => (Opcode::ASL, Mode::ABX, 7, false),
        0x1F => (Opcode::XXX, Mode::IMP, 7, false),
        0x20 => (Opcode::JSR, Mode::ABS, 6, false),
        0x21 => (Opcode::AND, Mode::ZIX, 6, false),
        0x22 => (Opcode::XXX, Mode::IMP, 2, false),
        0x23 => (Opcode::XXX, Mode::IMP, 8, false),
        0x24 => (Opcode::BIT, Mode::ZPG, 3, false),
        0x25 => (Opcode::AND, Mode::ZPG, 3, false),
        0x26 => (Opcode::ROL, Mode::ZPG, 5, false),
        0x27 => (Opcode::XXX, Mode::IMP, 5, false),
        0x28 => (Opcode::PLP, Mode::IMP, 4, false),
        0x29 => (Opcode::AND, Mode::IMM, 2, false),
        0x2A => (Opcode::ROL_A, Mode::ACC, 2, false),
        0x2B => (Opcode::XXX, Mode::IMP, 2, false),
        0x2C => (Opcode::BIT, Mode::ABS, 4, false),
        0x2D => (Opcode::AND, Mode::ABS, 4, false),
        0x2E => (Opcode::ROL, Mode::ABS, 6, false),
        0x2F => (Opcode::XXX, Mode::IMP, 6, false),
        0x30 => (Opcode::BMI, Mode::REL, 2, false),
        0x31 => (Opcode::AND, Mode::ZIY, 5, true),
        0x32 => (Opcode::XXX, Mode::IMP, 2, false),
        0x33 => (Opcode::XXX, Mode::IMP, 8, false),
        0x34 => (Opcode::NOP, Mode::IMP, 4, false),
        0x35 => (Opcode::AND, Mode::ZPX, 4, false),
        0x36 => (Opcode::ROL, Mode::ZPX, 6, false),
        0x37 => (Opcode::XXX, Mode::IMP, 6, false),
        0x38 => (Opcode::SEC, Mode::IMP, 2, false),
        0x39 => (Opcode::AND, Mode::ABY, 4, true),
        0x3A => (Opcode::NOP, Mode::IMP, 2, false),
        0x3B => (Opcode::XXX, Mode::IMP, 7, false),
        0x3C => (Opcode::NOP, Mode::IMP, 4, false),
        0x3D => (Opcode::AND, Mode::ABX, 4, true),
        0x3E => (Opcode::ROL, Mode::ABX, 7, false),
        0x3F => (Opcode::XXX, Mode::IMP, 7, false),
        0x40 => (Opcode::RTI, Mode::IMP, 6, false),
        0x41 => (Opcode::EOR, Mode::ZIX, 6, false),
        0x42 => (Opcode::XXX, Mode::IMP, 2, false),
        0x43 => (Opcode::XXX, Mode::IMP, 8, false),
        0x44 => (Opcode::NOP, Mode::IMP, 3, false),
        0x45 => (Opcode::EOR, Mode::ZPG, 3, false),
        0x46 => (Opcode::LSR, Mode::ZPG, 5, false),
        0x47 => (Opcode::XXX, Mode::IMP, 5, false),
        0x48 => (Opcode::PHA, Mode::IMP, 3, false),
        0x49 => (Opcode::EOR, Mode::IMM, 2, false),
        0x4A => (Opcode::LSR_A, Mode::ACC, 2, false),
        0x4B => (Opcode::XXX, Mode::IMP, 2, false),
        0x4C => (Opcode::JMP, Mode::ABS, 3, false),
        0x4D => (Opcode::EOR, Mode::ABS, 4, false),
        0x4E => (Opcode::LSR, Mode::ABS, 6, false),
        0x4F => (Opcode::XXX, Mode::IMP, 6, false),
        0x50 => (Opcode::BVC, Mode::REL, 2, true),
        0x51 => (Opcode::EOR, Mode::ZIY, 5, true),
        0x52 => (Opcode::XXX, Mode::IMP, 2, false),
        0x53 => (Opcode::XXX, Mode::IMP, 8, false),
        0x54 => (Opcode::NOP, Mode::IMP, 4, false),
        0x55 => (Opcode::EOR, Mode::ZPX, 4, false),
        0x56 => (Opcode::LSR, Mode::ZPX, 6, false),
        0x57 => (Opcode::XXX, Mode::IMP, 6, false),
        0x58 => (Opcode::CLI, Mode::IMP, 2, false),
        0x59 => (Opcode::EOR, Mode::ABY, 4, true),
        0x5A => (Opcode::NOP, Mode::IMP, 2, false),
        0x5B => (Opcode::XXX, Mode::IMP, 7, false),
        0x5C => (Opcode::NOP, Mode::IMP, 4, false),
        0x5D => (Opcode::EOR, Mode::ABX, 4, true),
        0x5E => (Opcode::LSR, Mode::ABX, 7, false),
        0x5F => (Opcode::XXX, Mode::IMP, 7, false),
        0x60 => (Opcode::RTS, Mode::IMP, 6, false),
        0x61 => (Opcode::ADC, Mode::ZIX, 6, false),
        0x62 => (Opcode::XXX, Mode::IMP, 2, false),
        0x63 => (Opcode::XXX, Mode::IMP, 8, false),
        0x64 => (Opcode::NOP, Mode::IMP, 3, false),
        0x65 => (Opcode::ADC, Mode::ZPG, 3, false),
        0x66 => (Opcode::ROR, Mode::ZPG, 5, false),
        0x67 => (Opcode::XXX, Mode::IMP, 5, false),
        0x68 => (Opcode::PLA, Mode::IMP, 4, false),
        0x69 => (Opcode::ADC, Mode::IMM, 2, false),
        0x6A => (Opcode::ROR_A, Mode::ACC, 2, false),
        0x6B => (Opcode::XXX, Mode::IMP, 2, false),
        0x6C => (Opcode::JMP, Mode::IND, 5, false),
        0x6D => (Opcode::ADC, Mode::ABS, 4, false),
        0x6E => (Opcode::ROR, Mode::ABS, 6, false),
        0x6F => (Opcode::XXX, Mode::IMP, 6, false),
        0x70 => (Opcode::BVS, Mode::REL, 2, true),
        0x71 => (Opcode::ADC, Mode::ZIY, 5, true),
        0x72 => (Opcode::XXX, Mode::IMP, 2, false),
        0x73 => (Opcode::XXX, Mode::IMP, 8, false),
        0x74 => (Opcode::NOP, Mode::IMP, 4, false),
        0x75 => (Opcode::ADC, Mode::ZPX, 4, false),
        0x76 => (Opcode::ROR, Mode::ZPX, 6, false),
        0x77 => (Opcode::XXX, Mode::IMP, 6, false),
        0x78 => (Opcode::SEI, Mode::IMP, 2, false),
        0x79 => (Opcode::ADC, Mode::ABY, 4, true),
        0x7A => (Opcode::NOP, Mode::IMP, 2, false),
        0x7B => (Opcode::XXX, Mode::IMP, 7, false),
        0x7C => (Opcode::NOP, Mode::IMP, 4, false),
        0x7D => (Opcode::ADC, Mode::ABX, 4, true),
        0x7E => (Opcode::ROR, Mode::ABX, 7, false),
        0x7F => (Opcode::XXX, Mode::IMP, 7, false),
        0x80 => (Opcode::NOP, Mode::IMP, 2, false),
        0x81 => (Opcode::STA, Mode::ZIX, 6, false),
        0x82 => (Opcode::NOP, Mode::IMP, 2, false),
        0x83 => (Opcode::XXX, Mode::IMP, 6, false),
        0x84 => (Opcode::STY, Mode::ZPG, 3, false),
        0x85 => (Opcode::STA, Mode::ZPG, 3, false),
        0x86 => (Opcode::STX, Mode::ZPG, 3, false),
        0x87 => (Opcode::XXX, Mode::IMP, 3, false),
        0x88 => (Opcode::DEY, Mode::IMP, 2, false),
        0x89 => (Opcode::NOP, Mode::IMP, 2, false),
        0x8A => (Opcode::TXA, Mode::IMP, 2, false),
        0x8B => (Opcode::XXX, Mode::IMP, 2, false),
        0x8C => (Opcode::STY, Mode::ABS, 4, false),
        0x8D => (Opcode::STA, Mode::ABS, 4, false),
        0x8E => (Opcode::STX, Mode::ABS, 4, false),
        0x8F => (Opcode::XXX, Mode::IMP, 4, false),
        0x90 => (Opcode::BCC, Mode::REL, 2, true),
        0x91 => (Opcode::STA, Mode::ZIY, 6, false),
        0x92 => (Opcode::XXX, Mode::IMP, 2, false),
        0x93 => (Opcode::XXX, Mode::IMP, 6, false),
        0x94 => (Opcode::STY, Mode::ZPX, 4, false),
        0x95 => (Opcode::STA, Mode::ZPX, 4, false),
        0x96 => (Opcode::STX, Mode::ZPY, 4, false),
        0x97 => (Opcode::XXX, Mode::IMP, 4, false),
        0x98 => (Opcode::TYA, Mode::IMP, 2, false),
        0x99 => (Opcode::STA, Mode::ABY, 5, false),
        0x9A => (Opcode::TXS, Mode::IMP, 2, false),
        0x9B => (Opcode::XXX, Mode::IMP, 5, false),
        0x9C => (Opcode::NOP, Mode::IMP, 5, false),
        0x9D => (Opcode::STA, Mode::ABX, 5, false),
        0x9E => (Opcode::XXX, Mode::IMP, 5, false),
        0x9F => (Opcode::XXX, Mode::IMP, 5, false),
        0xA0 => (Opcode::LDY, Mode::IMM, 2, false),
        0xA1 => (Opcode::LDA, Mode::ZIX, 6, false),
        0xA2 => (Opcode::LDX, Mode::IMM, 2, false),
        0xA3 => (Opcode::XXX, Mode::IMP, 6, false),
        0xA4 => (Opcode::LDY, Mode::ZPG, 3, false),
        0xA5 => (Opcode::LDA, Mode::ZPG, 3, false),
        0xA6 => (Opcode::LDX, Mode::ZPG, 3, false),
        0xA7 => (Opcode::XXX, Mode::IMP, 3, false),
        0xA8 => (Opcode::TAY, Mode::IMP, 2, false),
        0xA9 => (Opcode::LDA, Mode::IMM, 2, false),
        0xAA => (Opcode::TAX, Mode::IMP, 2, false),
        0xAB => (Opcode::XXX, Mode::IMP, 2, false),
        0xAC => (Opcode::LDY, Mode::ABS, 4, false),
        0xAD => (Opcode::LDA, Mode::ABS, 4, false),
        0xAE => (Opcode::LDX, Mode::ABS, 4, false),
        0xAF => (Opcode::XXX, Mode::IMP, 4, false),
        0xB0 => (Opcode::BCS, Mode::REL, 2, true),
        0xB1 => (Opcode::LDA, Mode::ZIY, 5, true),
        0xB2 => (Opcode::XXX, Mode::IMP, 2, false),
        0xB3 => (Opcode::XXX, Mode::IMP, 5, false),
        0xB4 => (Opcode::LDY, Mode::ZPX, 4, false),
        0xB5 => (Opcode::LDA, Mode::ZPX, 4, false),
        0xB6 => (Opcode::LDX, Mode::ZPY, 4, false),
        0xB7 => (Opcode::XXX, Mode::IMP, 4, false),
        0xB8 => (Opcode::CLV, Mode::IMP, 2, false),
        0xB9 => (Opcode::LDA, Mode::ABY, 4, true),
        0xBA => (Opcode::TSX, Mode::IMP, 2, false),
        0xBB => (Opcode::XXX, Mode::IMP, 4, false),
        0xBC => (Opcode::LDY, Mode::ABX, 4, true),
        0xBD => (Opcode::LDA, Mode::ABX, 4, true),
        0xBE => (Opcode::LDX, Mode::ABY, 4, true),
        0xBF => (Opcode::XXX, Mode::IMP, 4, false),
        0xC0 => (Opcode::CPY, Mode::IMM, 2, false),
        0xC1 => (Opcode::CMP, Mode::ZIX, 6, false),
        0xC2 => (Opcode::NOP, Mode::IMP, 2, false),
        0xC3 => (Opcode::XXX, Mode::IMP, 8, false),
        0xC4 => (Opcode::CPY, Mode::ZPG, 3, false),
        0xC5 => (Opcode::CMP, Mode::ZPG, 3, false),
        0xC6 => (Opcode::DEC, Mode::ZPG, 5, false),
        0xC7 => (Opcode::XXX, Mode::IMP, 5, false),
        0xC8 => (Opcode::INY, Mode::IMP, 2, false),
        0xC9 => (Opcode::CMP, Mode::IMM, 2, false),
        0xCA => (Opcode::DEX, Mode::IMP, 2, false),
        0xCB => (Opcode::XXX, Mode::IMP, 2, false),
        0xCC => (Opcode::CPY, Mode::ABS, 4, false),
        0xCD => (Opcode::CMP, Mode::ABS, 4, false),
        0xCE => (Opcode::DEC, Mode::ABS, 6, false),
        0xCF => (Opcode::XXX, Mode::IMP, 6, false),
        0xD0 => (Opcode::BNE, Mode::REL, 2, true),
        0xD1 => (Opcode::CMP, Mode::ZIY, 5, true),
        0xD2 => (Opcode::XXX, Mode::IMP, 2, false),
        0xD3 => (Opcode::XXX, Mode::IMP, 8, false),
        0xD4 => (Opcode::NOP, Mode::IMP, 4, false),
        0xD5 => (Opcode::CMP, Mode::ZPX, 4, false),
        0xD6 => (Opcode::DEC, Mode::ZPX, 6, false),
        0xD7 => (Opcode::XXX, Mode::IMP, 6, false),
        0xD8 => (Opcode::CLD, Mode::IMP, 2, false),
        0xD9 => (Opcode::CMP, Mode::ABY, 4, true),
        0xDA => (Opcode::NOP, Mode::IMP, 2, false),
        0xDB => (Opcode::XXX, Mode::IMP, 7, false),
        0xDC => (Opcode::NOP, Mode::IMP, 4, false),
        0xDD => (Opcode::CMP, Mode::ABX, 4, true),
        0xDE => (Opcode::DEC, Mode::ABX, 7, false),
        0xDF => (Opcode::XXX, Mode::IMP, 7, false),
        0xE0 => (Opcode::CPX, Mode::IMM, 2, false),
        0xE1 => (Opcode::SBC, Mode::ZIX, 6, false),
        0xE2 => (Opcode::NOP, Mode::IMP, 2, false),
        0xE3 => (Opcode::XXX, Mode::IMP, 8, false),
        0xE4 => (Opcode::CPX, Mode::ZPG, 3, false),
        0xE5 => (Opcode::SBC, Mode::ZPG, 3, false),
        0xE6 => (Opcode::INC, Mode::ZPG, 5, false),
        0xE7 => (Opcode::XXX, Mode::IMP, 5, false),
        0xE8 => (Opcode::INX, Mode::IMP, 2, false),
        0xE9 => (Opcode::SBC, Mode::IMM, 2, false),
        0xEA => (Opcode::NOP, Mode::IMP, 2, false),
        0xEB => (Opcode::SBC, Mode::IMP, 2, false),
        0xEC => (Opcode::CPX, Mode::ABS, 4, false),
        0xED => (Opcode::SBC, Mode::ABS, 4, false),
        0xEE => (Opcode::INC, Mode::ABS, 6, false),
        0xEF => (Opcode::XXX, Mode::IMP, 6, false),
        0xF0 => (Opcode::BEQ, Mode::REL, 2, true),
        0xF1 => (Opcode::SBC, Mode::ZIY, 5, true),
        0xF2 => (Opcode::XXX, Mode::IMP, 2, false),
        0xF3 => (Opcode::XXX, Mode::IMP, 8, false),
        0xF4 => (Opcode::NOP, Mode::IMP, 4, false),
        0xF5 => (Opcode::SBC, Mode::ZPX, 4, false),
        0xF6 => (Opcode::INC, Mode::ZPX, 6, false),
        0xF7 => (Opcode::XXX, Mode::IMP, 6, false),
        0xF8 => (Opcode::SED, Mode::IMP, 2, false),
        0xF9 => (Opcode::SBC, Mode::ABY, 4, true),
        0xFA => (Opcode::NOP, Mode::IMP, 2, false),
        0xFB => (Opcode::XXX, Mode::IMP, 7, false),
        0xFC => (Opcode::NOP, Mode::IMP, 4, false),
        0xFD => (Opcode::SBC, Mode::ABX, 4, true),
        0xFE => (Opcode::INC, Mode::ABX, 7, false),
        0xFF => (Opcode::XXX, Mode::IMP, 7, false),
    }
}

/// Every entry of the table costs between two and eight cycles.
pub proof fn lemma_base_cycles(opcode: u8)
    ensures
        2 <= instruction_of(opcode).2 <= 8,
{
    reveal(instruction_of);
}

} // verus!

use vstd::prelude::*;

use crate::instruction::{Mode, Opcode};

verus! {

/// The sixteen hexadecimal digits, upper case.
pub open spec fn hex_digits() -> Seq<char> {
    seq!['0', '1', '2', '3', '4', '5', '6', '7', '8', '9', 'A', 'B', 'C', 'D', 'E', 'F']
}

/// A byte as two hexadecimal digits.
pub open spec fn hex2(v: u8) -> Seq<char> {
    seq![hex_digits()[(v / 16) as int], hex_digits()[(v % 16) as int]]
}

/// A word as four hexadecimal digits.
pub open spec fn hex4(v: u16) -> Seq<char> {
    hex2((v / 256) as u8) + hex2((v % 256) as u8)
}

/// The mnemonic of an operation; the accumulator forms share theirs.
pub open spec fn mnemonic(op: Opcode) -> Seq<char> {
    match op {
        Opcode::ADC => seq!['A', 'D', 'C'],
        Opcode::AND => seq!['A', 'N', 'D'],
        Opcode::ASL => seq!['A', 'S', 'L'],
        Opcode::ASL_A => seq!['A', 'S', 'L'],
        Opcode::BCC => seq!['B', 'C', 'C'],
        Opcode::BCS => seq!['B', 'C', 'S'],
        Opcode::BEQ => seq!['B', 'E', 'Q'],
        Opcode::BIT => seq!['B', 'I', 'T'],
        Opcode::BMI => seq!['B', 'M', 'I'],
        Opcode::BNE => seq!['B', 'N', 'E'],
        Opcode::BPL => seq!['B', 'P', 'L'],
        Opcode::BRK => seq!['B', 'R', 'K'],
        Opcode::BVC => seq!['B', 'V', 'C'],
        Opcode::BVS => seq!['B', 'V', 'S'],
        Opcode::CLC => seq!['C', 'L', 'C'],
        Opcode::CLD => seq!['C', 'L', 'D'],
        Opcode::CLI => seq!['C', 'L', 'I'],
        Opcode::CLV => seq!['C', 'L', 'V'],
        Opcode::CMP => seq!['C', 'M', 'P'],
        Opcode::CPX => seq!['C', 'P', 'X'],
        Opcode::CPY => seq!['C', 'P', 'Y'],
        Opcode::DEC => seq!['D', 'E', 'C'],
        Opcode::DEX => seq!['D', 'E', 'X'],
        Opcode::DEY => seq!['D', 'E', 'Y'],
        Opcode::EOR => seq!['E', 'O', 'R'],
        Opcode::INC => seq!['I', 'N', 'C'],
        Opcode::INX => seq!['I', 'N', 'X'],
        Opcode::INY => seq!['I', 'N', 'Y'],
        Opcode::JMP => seq!['J', 'M', 'P'],
        Opcode::JSR => seq!['J', 'S', 'R'],
        Opcode::LDA => seq!['L', 'D', 'A'],
        Opcode::LDX => seq!['L', 'D', 'X'],
        Opcode::LDY => seq!['L', 'D', 'Y'],
        Opcode::LSR => seq!['L', 'S', 'R'],
        Opcode::LSR_A => seq!['L', 'S', 'R'],
        Opcode::NOP => seq!['N', 'O', 'P'],
        Opcode::ORA => seq!['O', 'R', 'A'],
        Opcode::PHA => seq!['P', 'H', 'A'],
        Opcode::PHP => seq!['P', 'H', 'P'],
        Opcode::PLA => seq!['P', 'L', 'A'],
        Opcode::PLP => seq!['P', 'L', 'P'],
        Opcode::ROL => seq!['R', 'O', 'L'],
        Opcode::ROL_A => seq!['R', 'O', 'L'],
        Opcode::ROR => seq!['R', 'O', 'R'],
        Opcode::ROR_A => seq!['R', 'O', 'R'],
        Opcode::RTI => seq!['R', 'T', 'I'],
        Opcode::RTS => seq!['R', 'T', 'S'],
        Opcode::SBC => seq!['S', 'B', 'C'],
        Opcode::SEC => seq!['S', 'E', 'C'],
        Opcode::SED => seq!['S', 'E', 'D'],
        Opcode::SEI => seq!['S', 'E', 'I'],
        Opcode::STA => seq!['S', 'T', 'A'],
        Opcode::STX => seq!['S', 'T', 'X'],
        Opcode::STY => seq!['S', 'T', 'Y'],
        Opcode::TAX => seq!['T', 'A', 'X'],
        Opcode::TAY => seq!['T', 'A', 'Y'],
        Opcode::TSX => seq!['T', 'S', 'X'],
        Opcode::TXA => seq!['T', 'X', 'A'],
        Opcode::TXS => seq!['T', 'X', 'S'],
        Opcode::TYA => seq!['T', 'Y', 'A'],
        Opcode::XXX => seq!['X', 'X', 'X'],
    }
}

/// The operand as assembly syntax writes it for `mode`, given the byte and
/// the word that follow the opcode.
pub open spec fn operand_text(mode: Mode, b: u8, w: u16) -> Seq<char> {
    match mode {
        Mode::IMP => seq![],
        Mode::ACC => seq!['A'],
        Mode::IMM => seq!['#', '$'] + hex2(b),
        Mode::ABS => seq!['$'] + hex4(w),
        Mode::ABX => seq!['$'] + hex4(w) + seq![',', 'X'],
        Mode::ABY => seq!['$'] + hex4(w) + seq![',', 'Y'],
        Mode::ZPG => seq!['$'] + hex2(b),
        Mode::ZPX => seq!['$'] + hex2(b) + seq![',', 'X'],
        Mode::ZPY => seq!['$'] + hex2(b) + seq![',', 'Y'],
        Mode::ZIX => seq!['(', '$'] + hex2(b) + seq![',', 'X', ')'],
        Mode::ZIY => seq!['(', '$'] + hex2(b) + seq![')', ',', 'Y'],
        Mode::IND => seq!['(', '$'] + hex4(w) + seq![')'],
        Mode::REL => seq!['$'] + hex2(b),
    }
}

/// A line of assembly: the mnemonic, then a space and the operand where
/// there is one.
pub open spec fn line_text(op: Opcode, mode: Mode, b: u8, w: u16) -> Seq<char> {
    if mode == Mode::IMP {
        mnemonic(op)
    } else {
        mnemonic(op) + seq![' '] + operand_text(mode, b, w)
    }
}

/// The current instruction as the debugger shows it: as `line_text`, but a
/// branch shows its full target address.
pub open spec fn current_text(op: Opcode, mode: Mode, b: u8, w: u16) -> Seq<char> {
    if mode == Mode::REL {
        mnemonic(op) + seq![' ', '$'] + hex4(w)
    } else {
        line_text(op, mode, b, w)
    }
}

pub fn hex_digit(n: u8) -> (r: char)
    requires
        n < 16,
    ensures
        r == hex_digits()[n as int],
{
    if n < 10 {
        match n {
            0 => '0',
            1 => '1',
            2 => '2',
            3 => '3',
            4 => '4',
            5 => '5',
            6 => '6',
            7 => '7',
            8 => '8',
            _ => '9',
        }
    } else {
        match n {
            10 => 'A',
            11 => 'B',
            12 => 'C',
            13 => 'D',
            14 => 'E',
            _ => 'F',
        }
    }
}

/// Appends two hexadecimal digits.
pub fn push_hex2(out: &mut Vec<char>, v: u8)
    ensures
        final(out)@ == old(out)@ + hex2(v),
{
    out.push(hex_digit(v / 16));
    out.push(hex_digit(v % 16));
}

/// Appends four hexadecimal digits.
pub fn push_hex4(out: &mut Vec<char>, v: u16)
    ensures
        final(out)@ == old(out)@ + hex4(v),
{
    push_hex2(out, (v / 256) as u8);
    push_hex2(out, (v % 256) as u8);
}

/// Appends each char of `s`.
fn push_all(out: &mut Vec<char>, s: &Vec<char>)
    ensures
        final(out)@ == old(out)@ + s@,
{
    let mut i: usize = 0;
    while i < s.len()
        invariant
            0 <= i <= s@.len(),
            out@ == old(out)@ + s@.subrange(0, i as int),
        decreases s@.len() - i,
    {
        out.push(s[i]);
        i = i + 1;
        assert(s@.subrange(0, i as int) == s@.subrange(0, i - 1) + seq![s@[i - 1]]);
    }
    assert(s@.subrange(0, s@.len() as int) == s@);
}

pub fn mnemonic_chars(op: Opcode) -> (r: Vec<char>)
    ensures
        r@ == mnemonic(op),
{
    match op {
        Opcode::ADC => vec!['A', 'D', 'C'],
        Opcode::AND => vec!['A', 'N', 'D'],
        Opcode::ASL => vec!['A', 'S', 'L'],
        Opcode::ASL_A => vec!['A', 'S', 'L'],
        Opcode::BCC => vec!['B', 'C', 'C'],
        Opcode::BCS => vec!['B', 'C', 'S'],
        Opcode::BEQ => vec!['B', 'E', 'Q'],
        Opcode::BIT => vec!['B', 'I', 'T'],
        Opcode::BMI => vec!['B', 'M', 'I'],
        Opcode::BNE => vec!['B', 'N', 'E'],
        Opcode::BPL => vec!['B', 'P', 'L'],
        Opcode::BRK => vec!['B', 'R', 'K'],
        Opcode::BVC => vec!['B', 'V', 'C'],
        Opcode::BVS => vec!['B', 'V', 'S'],
        Opcode::CLC => vec!['C', 'L', 'C'],
        Opcode::CLD => vec!['C', 'L', 'D'],
        Opcode::CLI => vec!['C', 'L', 'I'],
        Opcode::CLV => vec!['C', 'L', 'V'],
        Opcode::CMP => vec!['C', 'M', 'P'],
        Opcode::CPX => vec!['C', 'P', 'X'],
        Opcode::CPY => vec!['C', 'P', 'Y'],
        Opcode::DEC => vec!['D', 'E', 'C'],
        Opcode::DEX => vec!['D', 'E', 'X'],
        Opcode::DEY => vec!['D', 'E', 'Y'],
        Opcode::EOR => vec!['E', 'O', 'R'],
        Opcode::INC => vec!['I', 'N', 'C'],
        Opcode::INX => vec!['I', 'N', 'X'],
        Opcode::INY => vec!['I', 'N', 'Y'],
        Opcode::JMP => vec!['J', 'M', 'P'],
        Opcode::JSR => vec!['J', 'S', 'R'],
        Opcode::LDA => vec!['L', 'D', 'A'],
        Opcode::LDX => vec!['L', 'D', 'X'],
        Opcode::LDY => vec!['L', 'D', 'Y'],
        Opcode::LSR => vec!['L', 'S', 'R'],
        Opcode::LSR_A => vec!['L', 'S', 'R'],
        Opcode::NOP => vec!['N', 'O', 'P'],
        Opcode::ORA => vec!['O', 'R', 'A'],
        Opcode::PHA => vec!['P', 'H', 'A'],
        Opcode::PHP => vec!['P', 'H', 'P'],
        Opcode::PLA => vec!['P', 'L', 'A'],
        Opcode::PLP => vec!['P', 'L', 'P'],
        Opcode::ROL => vec!['R', 'O', 'L'],
        Opcode::ROL_A => vec!['R', 'O', 'L'],
        Opcode::ROR => vec!['R', 'O', 'R'],
        Opcode::ROR_A => vec!['R', 'O', 'R'],
        Opcode::RTI => vec!['R', 'T', 'I'],
        Opcode::RTS => vec!['R', 'T', 'S'],
        Opcode::SBC => vec!['S', 'B', 'C'],
        Opcode::SEC => vec!['S', 'E', 'C'],
        Opcode::SED => vec!['S', 'E', 'D'],
        Opcode::SEI => vec!['S', 'E', 'I'],
        Opcode::STA => vec!['S', 'T', 'A'],
        Opcode::STX => vec!['S', 'T', 'X'],
        Opcode::STY => vec!['S', 'T', 'Y'],
        Opcode::TAX => vec!['T', 'A', 'X'],
        Opcode::TAY => vec!['T', 'A', 'Y'],
        Opcode::TSX => vec!['T', 'S', 'X'],
        Opcode::TXA => vec!['T', 'X', 'A'],
        Opcode::TXS => vec!['T', 'X', 'S'],
        Opcode::TYA => vec!['T', 'Y', 'A'],
        Opcode::XXX => vec!['X', 'X', 'X'],
    }
}

/// Appends the operand text.
pub fn push_operand(out: &mut Vec<char>, mode: Mode, b: u8, w: u16)
    ensures
        final(out)@ == old(out)@ + operand_text(mode, b, w),
{
    let ghost start = out@;
    match mode {
        Mode::IMP => {},
        Mode::ACC => {
            out.push('A');
        },
        Mode::IMM => {
            out.push('#');
            out.push('$');
            push_hex2(out, b);
        },
        Mode::ABS => {
            out.push('$');
            push_hex4(out, w);
        },
        Mode::ABX => {
            out.push('$');
            push_hex4(out, w);
            out.push(',');
            out.push('X');
        },
        Mode::ABY => {
            out.push('$');
            push_hex4(out, w);
            out.push(',');
            out.push('Y');
        },
        Mode::ZPG => {
            out.push('$');
            push_hex2(out, b);
        },
        Mode::ZPX => {
            out.push('$');
            push_hex2(out, b);
            out.push(',');
            out.push('X');
        },
        Mode::ZPY => {
            out.push('$');
            push_hex2(out, b);
            out.push(',');
            out.push('Y');
        },
        Mode::ZIX => {
            out.push('(');
            out.push('$');
            push_hex2(out, b);
            out.push(',');
            out.push('X');
            out.push(')');
        },
        Mode::ZIY => {
            out.push('(');
            out.push('$');
            push_hex2(out, b);
            out.push(')');
            out.push(',');
            out.push('Y');
        },
        Mode::IND => {
            out.push('(');
            out.push('$');
            push_hex4(out, w);
            out.push(')');
        },
        Mode::REL => {
            out.push('$');
            push_hex2(out, b);
        },
    }
    assert(out@ =~= start + operand_text(mode, b, w));
}

/// The text of one line of assembly.
pub fn line_chars(op: Opcode, mode: Mode, b: u8, w: u16) -> (r: Vec<char>)
    ensures
        r@ == line_text(op, mode, b, w),
{
    let mut out = mnemonic_chars(op);
    if mode != Mode::IMP {
        out.push(' ');
        push_operand(&mut out, mode, b, w);
    }
    out
}

/// The text of the current instruction.
pub fn current_chars(op: Opcode, mode: Mode, b: u8, w: u16) -> (r: Vec<char>)
    ensures
        r@ == current_text(op, mode, b, w),
{
    if mode == Mode::REL {
        let mut out = mnemonic_chars(op);
        let ghost start = out@;
        out.push(' ');
        out.push('$');
        push_hex4(&mut out, w);
        assert(out@ =~= start + seq![' ', '$'] + hex4(w));
        out
    } else {
        line_chars(op, mode, b, w)
    }
}

/// Relies on `String: FromIterator<char>`: the string holds the chars in order.
#[verifier::external_body]
pub(crate) fn to_string(chars: Vec<char>) -> (r: String)
    ensures
        r@ == chars@,
{
    chars.into_iter().collect()
}

} // verus!

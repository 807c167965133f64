use nes::cpu::CPU6502;
use nes::instruction::{lookup, Mode, Opcode};
use nes::io::IO;
use nes::machine::step;
use nes::mem::Memory;
use nes::status::Status;

fn cpu_with(program: &[u8], at: u16) -> CPU6502<Memory> {
    let mut mem = Memory::new();
    mem.load(program, at);
    let mut cpu = CPU6502::new(mem);
    cpu.pc = at;
    cpu.sp = 0xFF;
    cpu.p = Status::from_bits(0x20);
    cpu
}

/// Runs one whole instruction.
fn run_one(cpu: &mut CPU6502<Memory>) {
    step(cpu);
}

#[test]
fn reset_vector() {
    let mut mem = Memory::new();
    mem.write(0xFFFC, 0x34);
    mem.write(0xFFFD, 0x12);
    let mut cpu = CPU6502::new(mem);
    cpu.a = 9;
    cpu.x = 8;
    cpu.y = 7;
    cpu.p = Status::from_bits(0xFF);
    cpu.reset();
    assert_eq!(cpu.pc, 0x1234);
    assert_eq!(cpu.sp, 0xFF);
    assert_eq!(cpu.p.bits(), 0x20);
    assert_eq!((cpu.a, cpu.x, cpu.y), (0, 0, 0));
    assert_eq!(cpu.cycles_left, 0);
    assert!(cpu.instruction.is_none());
}

#[test]
fn jmp_indirect() {
    let mut cpu = cpu_with(&[0x6C, 0x20, 0x01], 0x0000);
    cpu.mem.write(0x0120, 0xFC);
    cpu.mem.write(0x0121, 0xBA);
    run_one(&mut cpu);
    assert_eq!(cpu.pc, 0xBAFC);
}

#[test]
fn lda_immediate() {
    let mut cpu = cpu_with(&[0xA9, 0x33], 0x0000);
    run_one(&mut cpu);
    assert_eq!(cpu.a, 0x33);
    assert!(!cpu.p.z);
    assert!(!cpu.p.n);
    assert_eq!(cpu.pc, 2);
}

#[test]
fn sta_absolute() {
    let mut cpu = cpu_with(&[0x8D, 0xAB, 0x00], 0x0600);
    cpu.a = 0x33;
    run_one(&mut cpu);
    assert_eq!(cpu.mem.read(0x00AB), 0x33);
}

#[test]
fn adc_decimal_mode() {
    let mut cpu = cpu_with(&[0x69, 0x01], 0x0000);
    cpu.sed();
    cpu.a = 0x09;
    cpu.p.c = false;
    run_one(&mut cpu);
    assert_eq!(cpu.a, 0x10);
    assert!(!cpu.p.c);
}

#[test]
fn sbc_decimal_mode() {
    // 0x42 - 0x13 with no borrow is 0x29 in BCD
    let mut cpu = cpu_with(&[0xE9, 0x13], 0x0000);
    cpu.sed();
    cpu.sec();
    cpu.a = 0x42;
    run_one(&mut cpu);
    assert_eq!(cpu.a, 0x29);
    assert!(cpu.p.c);
}

#[test]
fn adc_carry_out() {
    let mut cpu = cpu_with(&[0x69, 0x01], 0x0000);
    cpu.a = 0xFF;
    run_one(&mut cpu);
    assert_eq!(cpu.a, 0x00);
    assert!(cpu.p.c);
    assert!(cpu.p.z);
    assert!(!cpu.p.v);
}

#[test]
fn adc_signed_overflow() {
    let mut cpu = cpu_with(&[0x69, 0x01], 0x0000);
    cpu.a = 0x7F;
    run_one(&mut cpu);
    assert_eq!(cpu.a, 0x80);
    assert!(cpu.p.n);
    assert!(cpu.p.v);
}

#[test]
fn sbc_with_borrow() {
    let mut cpu = cpu_with(&[0xE9, 0x05], 0x0000);
    cpu.a = 0x09;
    cpu.p.c = false;
    run_one(&mut cpu);
    assert_eq!(cpu.a, 0x03);
}

#[test]
fn zpx_wraparound() {
    let mut cpu = cpu_with(&[0xB5, 0x80], 0x0000);
    cpu.x = 0xFF;
    cpu.mem.write(0x007F, 0x44);
    run_one(&mut cpu);
    assert_eq!(cpu.op_addr, 0x007F);
    assert_eq!(cpu.a, 0x44);
}

#[test]
fn branch_page_cross() {
    // BNE +$40 at $00F5: taken, and $0137 lies on another page than $00F7
    let mut cpu = cpu_with(&[0xD0, 0x40], 0x00F5);
    cpu.p.z = false;
    cpu.clock();
    assert_eq!(cpu.pc, 0x0137);
    assert_eq!(cpu.cycles_left, 3);
}

#[test]
fn branch_not_taken_costs_nothing() {
    let mut cpu = cpu_with(&[0xF0, 0x40], 0x00F5);
    cpu.p.z = false;
    cpu.clock();
    assert_eq!(cpu.pc, 0x00F7);
    assert_eq!(cpu.cycles_left, 1);
}

#[test]
fn branch_backwards() {
    let mut cpu = cpu_with(&[0xD0, 0xFC], 0x0210);
    cpu.p.z = false;
    cpu.clock();
    assert_eq!(cpu.pc, 0x020E);
    assert_eq!(cpu.cycles_left, 2);
}

#[test]
fn page_cross_penalty_on_indexed_read() {
    // LDA $10FF,X with X = 1 crosses into page $11
    let mut cpu = cpu_with(&[0xBD, 0xFF, 0x10], 0x0000);
    cpu.x = 1;
    cpu.clock();
    assert_eq!(cpu.op_addr, 0x1100);
    assert_eq!(cpu.cycles_left, 4);
    // STA $10FF,X has no penalty
    let mut cpu = cpu_with(&[0x9D, 0xFF, 0x10], 0x0000);
    cpu.x = 1;
    cpu.clock();
    assert_eq!(cpu.cycles_left, 4);
}

#[test]
fn clock_counts_down_then_fetches() {
    let mut cpu = cpu_with(&[0xEA, 0xEA], 0x0000);
    cpu.clock();
    assert_eq!(cpu.cycles(), 1);
    assert_eq!(cpu.instructions, 1);
    assert_eq!(cpu.cycles_left, 1);
    cpu.clock();
    assert_eq!(cpu.pc, 1);
    assert_eq!(cpu.cycles_left, 0);
    cpu.clock();
    assert_eq!(cpu.pc, 2);
    assert_eq!(cpu.instructions, 2);
    assert_eq!(cpu.cycles(), 3);
}

#[test]
fn push_pull_round_trip() {
    // PHA; LDA #0; PLA
    let mut cpu = cpu_with(&[0x48, 0xA9, 0x00, 0x68], 0x0000);
    cpu.a = 0x5A;
    run_one(&mut cpu);
    assert_eq!(cpu.sp, 0xFE);
    assert_eq!(cpu.mem.read(0x01FF), 0x5A);
    run_one(&mut cpu);
    assert_eq!(cpu.a, 0);
    run_one(&mut cpu);
    assert_eq!(cpu.a, 0x5A);
    assert_eq!(cpu.sp, 0xFF);
}

#[test]
fn php_plp_fixed_point() {
    let mut cpu = cpu_with(&[0x08, 0x28], 0x0000);
    cpu.p = Status::from_bits(0b1100_1011);
    run_one(&mut cpu);
    assert_eq!(cpu.mem.read(0x01FF), 0b1111_1011);
    run_one(&mut cpu);
    assert_eq!(cpu.p.bits(), 0b1110_1011);
    assert_eq!(cpu.sp, 0xFF);
}

#[test]
fn jsr_rts_returns_after_the_call() {
    let mut cpu = cpu_with(&[0x20, 0x00, 0x03, 0xEA], 0x0000);
    cpu.mem.write(0x0300, 0x60);
    run_one(&mut cpu);
    assert_eq!(cpu.pc, 0x0300);
    assert_eq!(cpu.mem.read(0x01FF), 0x00);
    assert_eq!(cpu.mem.read(0x01FE), 0x02);
    run_one(&mut cpu);
    assert_eq!(cpu.pc, 0x0003);
    assert_eq!(cpu.sp, 0xFF);
}

#[test]
fn stack_pointer_and_pc_wrap() {
    let mut cpu = cpu_with(&[0x48], 0x0000);
    cpu.sp = 0x00;
    cpu.a = 0x11;
    run_one(&mut cpu);
    assert_eq!(cpu.sp, 0xFF);
    assert_eq!(cpu.mem.read(0x0100), 0x11);

    let mut cpu = cpu_with(&[0x68], 0x0000);
    cpu.sp = 0xFF;
    cpu.mem.write(0x0100, 0x22);
    run_one(&mut cpu);
    assert_eq!(cpu.sp, 0x00);
    assert_eq!(cpu.a, 0x22);

    let mut cpu = cpu_with(&[0xEA], 0xFFFF);
    run_one(&mut cpu);
    assert_eq!(cpu.pc, 0x0000);
}

#[test]
fn brk_pushes_and_halts() {
    let mut cpu = cpu_with(&[0x00, 0xFF], 0x0400);
    cpu.mem.write(0xFFFE, 0x00);
    cpu.mem.write(0xFFFF, 0x90);
    step(&mut cpu);
    assert!(cpu.halted());
    assert_eq!(cpu.pc, 0x9000);
    assert!(cpu.p.i);
    assert_eq!(cpu.mem.read(0x01FF), 0x04);
    assert_eq!(cpu.mem.read(0x01FE), 0x02);
    assert_eq!(cpu.mem.read(0x01FD), 0x30);
    assert_eq!(cpu.sp, 0xFC);
    // the single step stops at once on a halt
    assert_eq!(cpu.cycles_left, 6);
}

#[test]
fn rti_restores_status_and_pc() {
    let mut cpu = cpu_with(&[0x40], 0x0000);
    cpu.sp = 0xFC;
    cpu.mem.write(0x01FD, 0xFF);
    cpu.mem.write(0x01FE, 0x34);
    cpu.mem.write(0x01FF, 0x12);
    run_one(&mut cpu);
    assert_eq!(cpu.pc, 0x1234);
    assert_eq!(cpu.p.bits(), 0xEF);
    assert_eq!(cpu.sp, 0xFF);
}

#[test]
fn irq_respects_interrupt_disable() {
    let mut cpu = cpu_with(&[], 0x1234);
    cpu.mem.write(0xFFFE, 0x00);
    cpu.mem.write(0xFFFF, 0x80);
    cpu.p.i = true;
    cpu.irq();
    assert_eq!(cpu.pc, 0x1234);
    cpu.p.i = false;
    cpu.p.b = true;
    cpu.irq();
    assert_eq!(cpu.pc, 0x8000);
    assert_eq!(cpu.cycles_left, 7);
    assert_eq!(cpu.mem.read(0x01FD) & 0x10, 0);
    assert!(cpu.p.i);
}

#[test]
fn nmi_ignores_interrupt_disable() {
    let mut cpu = cpu_with(&[], 0x1234);
    cpu.mem.write(0xFFFA, 0x00);
    cpu.mem.write(0xFFFB, 0xA0);
    cpu.p.i = true;
    cpu.nmi();
    assert_eq!(cpu.pc, 0xA000);
    assert_eq!(cpu.cycles_left, 7);
}

#[test]
fn illegal_opcode_only_takes_cycles() {
    let mut cpu = cpu_with(&[0x02], 0x0000);
    cpu.a = 5;
    cpu.clock();
    assert_eq!(cpu.pc, 1);
    assert_eq!(cpu.a, 5);
    assert_eq!(cpu.cycles_left, 1);
}

#[test]
fn shifts_rotates_and_compares() {
    // ASL A; ROL A; LSR A; ROR A
    let mut cpu = cpu_with(&[0x0A, 0x2A, 0x4A, 0x6A], 0x0000);
    cpu.a = 0x81;
    run_one(&mut cpu);
    assert_eq!((cpu.a, cpu.p.c), (0x02, true));
    run_one(&mut cpu);
    assert_eq!((cpu.a, cpu.p.c), (0x05, false));
    run_one(&mut cpu);
    assert_eq!((cpu.a, cpu.p.c), (0x02, true));
    run_one(&mut cpu);
    assert_eq!((cpu.a, cpu.p.c, cpu.p.n), (0x81, false, true));

    // CMP #$40 with A = $30
    let mut cpu = cpu_with(&[0xC9, 0x40], 0x0000);
    cpu.a = 0x30;
    run_one(&mut cpu);
    assert!(!cpu.p.c);
    assert!(!cpu.p.z);
    assert!(cpu.p.n);
}

#[test]
fn read_modify_write_and_bit() {
    // INC $10; DEC $11; BIT $12
    let mut cpu = cpu_with(&[0xE6, 0x10, 0xC6, 0x11, 0x24, 0x12], 0x0200);
    cpu.mem.write(0x10, 0xFF);
    cpu.mem.write(0x11, 0x00);
    cpu.mem.write(0x12, 0xC0);
    cpu.a = 0x01;
    run_one(&mut cpu);
    assert_eq!(cpu.mem.read(0x10), 0x00);
    assert!(cpu.p.z);
    run_one(&mut cpu);
    assert_eq!(cpu.mem.read(0x11), 0xFF);
    assert!(cpu.p.n);
    run_one(&mut cpu);
    assert!(cpu.p.z && cpu.p.v && cpu.p.n);
}

#[test]
fn indirect_indexed_modes() {
    // LDA ($20,X) with X = 4 reads the word at $24; LDA ($30),Y adds Y
    let mut cpu = cpu_with(&[0xA1, 0x20, 0xB1, 0x30], 0x0200);
    cpu.x = 4;
    cpu.y = 0x10;
    cpu.mem.write(0x24, 0x00);
    cpu.mem.write(0x25, 0x05);
    cpu.mem.write(0x0500, 0x99);
    cpu.mem.write(0x30, 0xF8);
    cpu.mem.write(0x31, 0x05);
    cpu.mem.write(0x0608, 0x77);
    run_one(&mut cpu);
    assert_eq!(cpu.a, 0x99);
    cpu.clock();
    assert_eq!(cpu.op_addr, 0x0608);
    assert_eq!(cpu.a, 0x77);
    assert_eq!(cpu.cycles_left, 5);
}

#[test]
fn opcode_table_entries() {
    assert_eq!(lookup(0xA9), (Opcode::LDA, Mode::IMM, 2, false));
    assert_eq!(lookup(0x6C), (Opcode::JMP, Mode::IND, 5, false));
    assert_eq!(lookup(0x0A), (Opcode::ASL_A, Mode::ACC, 2, false));
    assert_eq!(lookup(0xFF), (Opcode::XXX, Mode::IMP, 7, false));
    for op in 0..=255u8 {
        let (_, _, cycles, _) = lookup(op);
        assert!((2..=8).contains(&cycles));
    }
}

#[test]
fn decode_instruction_text() {
    let mut cpu = cpu_with(&[0xA9, 0x33, 0x8D, 0xAB, 0x00], 0x0000);
    assert_eq!(cpu.decode_instruction(), "");
    run_one(&mut cpu);
    assert_eq!(cpu.decode_instruction(), "LDA #$33");
    run_one(&mut cpu);
    assert_eq!(cpu.decode_instruction(), "STA $00AB");
}

#[test]
fn status_bits_round_trip() {
    for v in 0..=255u8 {
        assert_eq!(Status::from_bits(v).bits(), v);
    }
    assert_eq!(Status::empty().bits(), 0);
}

#[test]
fn irq_pushes_status_with_only_b_cleared() {
    // a processor straight from `new` has P = 0, U included
    let mut cpu = CPU6502::new(Memory::new());
    cpu.sp = 0xFF;
    cpu.p.c = true;
    cpu.irq();
    assert_eq!(cpu.mem.read(0x01FD), 0x01);
    assert_eq!(cpu.sp, 0xFC);

    let mut cpu = CPU6502::new(Memory::new());
    cpu.sp = 0xFF;
    cpu.p = Status::from_bits(0x30);
    cpu.nmi();
    assert_eq!(cpu.mem.read(0x01FD), 0x20);
}

#[test]
fn decode_instruction_shows_branch_target() {
    let mut cpu = cpu_with(&[0xD0, 0x40], 0x00F5);
    cpu.p.z = false;
    run_one(&mut cpu);
    assert_eq!(cpu.decode_instruction(), "BNE $0137");
}

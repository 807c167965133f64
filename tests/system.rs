use nes::bus::Bus;
use nes::cart::Cart;
use nes::cpu::CPU6502;
use nes::disasm::disassemble;
use nes::instruction::Opcode;
use nes::io::{read_str, write_str, NullIO, IO};
use nes::machine::{run_step, FrameTimer};
use nes::mapper::Mapper;
use nes::mem::Memory;
use nes::ppu::Ppu;
use nes::rng::Rng;
use nes::rom::Rom;
use nes::stdin::Stdin;
use nes::stdout::Stdout;

const SNAKE: [u8; 309] = [
    0x20, 0x06, 0x06, 0x20, 0x38, 0x06, 0x20, 0x0d, 0x06, 0x20, 0x2a, 0x06, 0x60, 0xa9, 0x02, 0x85,
    0x02, 0xa9, 0x04, 0x85, 0x03, 0xa9, 0x11, 0x85, 0x10, 0xa9, 0x10, 0x85, 0x12, 0xa9, 0x0f, 0x85,
    0x14, 0xa9, 0x04, 0x85, 0x11, 0x85, 0x13, 0x85, 0x15, 0x60, 0xa5, 0xfe, 0x85, 0x00, 0xa5, 0xfe,
    0x29, 0x03, 0x18, 0x69, 0x02, 0x85, 0x01, 0x60, 0x20, 0x4d, 0x06, 0x20, 0x8d, 0x06, 0x20, 0xc3,
    0x06, 0x20, 0x19, 0x07, 0x20, 0x20, 0x07, 0x20, 0x2d, 0x07, 0x4c, 0x38, 0x06, 0xa5, 0xff, 0xc9,
    0x77, 0xf0, 0x0d, 0xc9, 0x64, 0xf0, 0x14, 0xc9, 0x73, 0xf0, 0x1b, 0xc9, 0x61, 0xf0, 0x22, 0x60,
    0xa9, 0x04, 0x24, 0x02, 0xd0, 0x26, 0xa9, 0x01, 0x85, 0x02, 0x60, 0xa9, 0x08, 0x24, 0x02, 0xd0,
    0x1b, 0xa9, 0x02, 0x85, 0x02, 0x60, 0xa9, 0x01, 0x24, 0x02, 0xd0, 0x10, 0xa9, 0x04, 0x85, 0x02,
    0x60, 0xa9, 0x02, 0x24, 0x02, 0xd0, 0x05, 0xa9, 0x08, 0x85, 0x02, 0x60, 0x60, 0x20, 0x94, 0x06,
    0x20, 0xa8, 0x06, 0x60, 0xa5, 0x00, 0xc5, 0x10, 0xd0, 0x0d, 0xa5, 0x01, 0xc5, 0x11, 0xd0, 0x07,
    0xe6, 0x03, 0xe6, 0x03, 0x20, 0x2a, 0x06, 0x60, 0xa2, 0x02, 0xb5, 0x10, 0xc5, 0x10, 0xd0, 0x06,
    0xb5, 0x11, 0xc5, 0x11, 0xf0, 0x09, 0xe8, 0xe8, 0xe4, 0x03, 0xf0, 0x06, 0x4c, 0xaa, 0x06, 0x4c,
    0x35, 0x07, 0x60, 0xa6, 0x03, 0xca, 0x8a, 0xb5, 0x10, 0x95, 0x12, 0xca, 0x10, 0xf9, 0xa5, 0x02,
    0x4a, 0xb0, 0x09, 0x4a, 0xb0, 0x19, 0x4a, 0xb0, 0x1f, 0x4a, 0xb0, 0x2f, 0xa5, 0x10, 0x38, 0xe9,
    0x20, 0x85, 0x10, 0x90, 0x01, 0x60, 0xc6, 0x11, 0xa9, 0x01, 0xc5, 0x11, 0xf0, 0x28, 0x60, 0xe6,
    0x10, 0xa9, 0x1f, 0x24, 0x10, 0xf0, 0x1f, 0x60, 0xa5, 0x10, 0x18, 0x69, 0x20, 0x85, 0x10, 0xb0,
    0x01, 0x60, 0xe6, 0x11, 0xa9, 0x06, 0xc5, 0x11, 0xf0, 0x0c, 0x60, 0xc6, 0x10, 0xa5, 0x10, 0x29,
    0x1f, 0xc9, 0x1f, 0xf0, 0x01, 0x60, 0x4c, 0x35, 0x07, 0xa0, 0x00, 0xa5, 0xfe, 0x91, 0x00, 0x60,
    0xa6, 0x03, 0xa9, 0x00, 0x81, 0x10, 0xa2, 0x00, 0xa9, 0x01, 0x81, 0x10, 0x60, 0xa2, 0x00, 0xea,
    0xea, 0xca, 0xd0, 0xfb, 0x60,
];

fn cart_image() -> Vec<u8> {
    let mut rom = vec![0u8; 0x6010];
    rom[0..4].copy_from_slice(b"NES\x1A");
    rom[0x10] = 0xAB;
    rom[0x10 + 0x3FFC] = 0x00;
    rom[0x10 + 0x3FFD] = 0x80;
    rom[0x4010 + 5] = 0x5C;
    rom
}

fn snake_machine() -> CPU6502<Bus> {
    let mut bus = Bus::new();
    bus.rng = Some(Rng::new());
    bus.load_mem(&SNAKE, 0x0600);
    let mut cpu = CPU6502::new(bus);
    cpu.reset();
    cpu.pc = 0x0600;
    cpu
}

#[test]
fn snake_demo_runs() {
    let mut cpu = snake_machine();
    let mut timer = FrameTimer::new(60, 2_000_000, 0);
    let breakpoints: Vec<u16> = vec![];
    let mut screen_written = false;
    while cpu.cycles() < 1_000_000 {
        let outcome = run_step(&mut cpu, &mut timer, &breakpoints, false, true);
        assert!(!outcome.halt);
        let (_, (op, _, _, _)) = cpu.instruction.unwrap();
        if op == Opcode::STA && (0x0200..=0x05FF).contains(&cpu.op_addr) {
            screen_written = true;
        }
        assert_eq!(cpu.cycles_left, 0);
    }
    assert!(screen_written);
    assert!(cpu.instructions > 100_000);
}

#[test]
fn snake_demo_halts_at_game_over_when_non_interactive() {
    // With no key pressed the snake runs into the right wall; the game then
    // jumps past its code, where BRK ends a non-interactive run.
    let mut cpu = snake_machine();
    let mut timer = FrameTimer::new(60, 2_000_000, 0);
    let breakpoints: Vec<u16> = vec![];
    let mut halted = false;
    while cpu.cycles() < 1_000_000 {
        let outcome = run_step(&mut cpu, &mut timer, &breakpoints, true, true);
        let (addr, (op, _, _, _)) = cpu.instruction.unwrap();
        assert!(op != Opcode::XXX);
        if outcome.halt {
            assert_eq!((addr, op), (0x0735, Opcode::BRK));
            halted = true;
            break;
        }
    }
    assert!(halted);
    assert!(cpu.halted());
}

#[test]
fn bus_write_then_read() {
    let mut bus = Bus::new();
    for a in [0x0000u16, 0x00FE, 0x01FF, 0x0200, 0x4FFF, 0x8000, 0xFFFF] {
        bus.write(a, 0x5A);
        assert_eq!(bus.read(a), 0x5A);
    }
}

#[test]
fn bus_routes_cartridge_reads() {
    let mut bus = Bus::new();
    bus.write(0x8000, 0x11);
    bus.write(0x7FFF, 0x22);
    bus.load_cart(Cart::new(&cart_image()).unwrap());
    assert_eq!(bus.read(0x8000), 0xAB);
    assert_eq!(bus.read(0xC000), 0xAB);
    assert_eq!(bus.read(0x7FFF), 0x22);
    bus.write(0x8000, 0x33);
    assert_eq!(bus.read(0x8000), 0xAB);
    assert_eq!(bus.ppu.read(0x0005), 0x5C);
    assert_eq!(bus.ppu.read(0x2005), 0);
}

#[test]
fn cartridge_reset_vector_through_bus() {
    let mut bus = Bus::new();
    bus.load_cart(Cart::new(&cart_image()).unwrap());
    let mut cpu = CPU6502::new(bus);
    cpu.reset();
    assert_eq!(cpu.pc, 0x8000);
}

#[test]
fn bus_entropy_source() {
    let mut bus = Bus::new();
    bus.write(0x00FE, 0x42);
    assert_eq!(bus.read(0x00FE), 0x42);
    bus.rng = Some(Rng::new());
    let mut seen = std::collections::HashSet::new();
    for _ in 0..200 {
        seen.insert(bus.read(0x00FE));
    }
    assert!(seen.len() > 1);
}

#[test]
fn disassembly_addresses_increase() {
    let mut mem = Memory::new();
    let mut x: u32 = 12345;
    let mut bytes = vec![0u8; 0x10000];
    for b in bytes.iter_mut() {
        x = x.wrapping_mul(1103515245).wrapping_add(12345);
        *b = (x >> 16) as u8;
    }
    mem.load(&bytes, 0);
    let log = disassemble(&mut mem);
    assert_eq!(log[0].0, 0);
    for w in log.windows(2) {
        assert!(w[0].0 < w[1].0);
        assert!(w[1].0 - w[0].0 <= 3);
    }
    assert!(log.last().unwrap().0 <= 0xFFFD);
}

#[test]
fn disassembly_text() {
    let mut mem = Memory::new();
    mem.load(
        &[0xA9, 0x33, 0x8D, 0xAB, 0x00, 0x0A, 0xEA, 0xB1, 0x10, 0x6C, 0x20, 0x01, 0xBD, 0x34, 0x12],
        0,
    );
    let log = disassemble(&mut mem);
    assert_eq!(log[0], (0x0000, "LDA #$33".to_string()));
    assert_eq!(log[1], (0x0002, "STA $00AB".to_string()));
    assert_eq!(log[2], (0x0005, "ASL A".to_string()));
    assert_eq!(log[3], (0x0006, "NOP".to_string()));
    assert_eq!(log[4], (0x0007, "LDA ($10),Y".to_string()));
    assert_eq!(log[5], (0x0009, "JMP ($0120)".to_string()));
    assert_eq!(log[6], (0x000C, "LDA $1234,X".to_string()));
    assert_eq!(log[7], (0x000F, "BRK".to_string()));
    // zero memory decodes as BRK at every address
    assert_eq!(log.len(), 7 + (0xFFFD - 0x000F + 1));
}

#[test]
fn frame_timer_pacing() {
    let mut t = FrameTimer::new(60, 2_000_000, 1_000);
    assert_eq!(t.cycles_per_frame, 33_333);
    assert_eq!(t.frame_time, 16_666_666);
    assert!(!t.computed());
    assert_eq!(t.time_remaining(1_000 + 6_666_666), 10_000_000);
    assert_eq!(t.time_remaining(1_000 + 20_000_000), 0);
    assert_eq!(t.sleep_request(1_000 + 6_666_666), Some(10_000_000));
    t.record_sleep(10_000_000, 10_000_500);
    assert_eq!(t.last_context_switch_error, 500);
    assert_eq!(t.sleep_request(1_000 + 6_666_666), Some(9_999_500));
    assert_eq!(t.sleep_request(1_000 + 16_666_400), None);
    for _ in 0..33_333 {
        t.clock();
    }
    assert!(t.computed());
    t.reset(50);
    assert_eq!(t.current_cycles, 0);
    assert_eq!(t.start_time, 50);
}

#[test]
fn executor_halts_on_breakpoint_and_brk() {
    // LDA #1; NOP; BRK
    let mut mem = Memory::new();
    mem.load(&[0xA9, 0x01, 0xEA, 0x00], 0x0300);
    let mut cpu = CPU6502::new(mem);
    cpu.pc = 0x0300;
    cpu.sp = 0xFF;
    let mut timer = FrameTimer::new(60, 120, 0);
    let breakpoints: Vec<u16> = vec![0x0303];
    let o = run_step(&mut cpu, &mut timer, &breakpoints, false, false);
    assert!(!o.halt);
    assert_eq!(timer.current_cycles, 2);
    assert!(o.pace);
    let o = run_step(&mut cpu, &mut timer, &breakpoints, false, false);
    assert!(o.halt);
    assert_eq!(cpu.pc, 0x0303);
    // BRK halts a non-interactive run only
    let o = run_step(&mut cpu, &mut timer, &vec![], false, true);
    assert!(!o.halt);
    assert!(!o.pace);
    assert!(cpu.halted());
    assert_eq!(timer.current_cycles, 11);
    let mut cpu2 = CPU6502::new(Memory::new());
    let o = run_step(&mut cpu2, &mut timer, &vec![], true, true);
    assert!(o.halt);
}

#[test]
fn rom_and_mapper() {
    let mut data = vec![0u8; 16 + 0x4000];
    data[0] = 0x4E;
    data[16] = 0xA9;
    data[16 + 0x100] = 0x42;
    let mut rom = Rom::new();
    rom.load(&data);
    assert_eq!(rom.header[0], 0x4E);
    assert_eq!(rom.read(0x8000), 0xA9);
    assert_eq!(rom.read(0xC100), 0x42);
    assert_eq!(rom.read(0xFFFC), 0x00);
    assert_eq!(rom.read(0xFFFD), 0xC0);
    rom.write(0x0010, 0x77);
    assert_eq!(rom.read(0x6010), 0x77);
    let mut m = Mapper::new(rom);
    m.write(0x0010, 0x12);
    assert_eq!(m.read(0x0010), 0x12);
    m.write(0x6020, 0x34);
    assert_eq!(m.read(0x6020), 0x34);
    assert_eq!(m.read(0x0900), 0);
    assert_eq!(m.read(0x8000), 0xA9);
}

#[test]
fn character_devices() {
    let mut input = Stdin::new();
    input.fill(b"hi\n");
    assert_eq!(input.read(0), b'h');
    assert_eq!(input.read(2), b'\n');
    assert_eq!(input.read(3), 0);
    assert_eq!(input.read(5000), 0);

    let mut out = Stdout::new();
    out.write(0, b'o');
    out.write(0, b'k');
    let bytes = out.flush();
    assert_eq!(bytes.len(), 4096);
    assert_eq!(&bytes[..3], b"ok\0");
    let again = out.flush();
    assert!(again.iter().all(|b| *b == 0));

    let mut null = NullIO {};
    null.write(1, 2);
    assert_eq!(null.read(1), 0);
    let mut ppu = Ppu::new();
    assert_eq!(ppu.read(0x0000), 0);
}

#[test]
fn strings_through_memory() {
    let mut mem = Memory::new();
    write_str(&mut mem, 0x0200, "Hello, 6502!");
    assert_eq!(mem.read(0x0200), b'H');
    assert_eq!(mem.read(0x020B), b'!');
    assert_eq!(read_str(&mut mem, 0x0200), "Hello, 6502!");
    assert_eq!(read_str(&mut mem, 0x0207), "6502!");
    assert_eq!(read_str(&mut mem, 0x0300), "");
    mem.write(0xFFFE, b'x');
    mem.write(0xFFFF, b'y');
    assert_eq!(read_str(&mut mem, 0xFFFE), "xy");
}

#[test]
fn volatile_operand_keeps_control() {
    // LDA $FE with the entropy source attached: the byte is random, the
    // record, counters, PC and cycles are not
    let mut bus = Bus::new();
    bus.rng = Some(Rng::new());
    bus.load_mem(&[0xA5, 0xFE, 0xEA], 0x0300);
    let mut cpu = CPU6502::new(bus);
    cpu.pc = 0x0300;
    cpu.clock();
    let (addr, (op, _, base, _)) = cpu.instruction.unwrap();
    assert_eq!((addr, op, base), (0x0300, Opcode::LDA, 3));
    assert_eq!(cpu.instructions, 1);
    assert_eq!(cpu.cycles(), 1);
    assert_eq!(cpu.pc, 0x0302);
    assert_eq!(cpu.op_addr, 0x00FE);
    assert_eq!(cpu.cycles_left, 2);
}

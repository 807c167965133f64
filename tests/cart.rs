use nes::cart::{Cart, Error};
use nes::io::IO;

fn create_rom() -> Vec<u8> {
    let mut rom: [u8; 0x6010] = [0; 0x6010];
    rom[0..4].copy_from_slice(b"NES\x1A");
    rom.to_vec()
}

#[test]
fn test_new_rom() {
    assert!(Cart::new(&create_rom()).is_ok());
}

#[test]
fn test_bad_header() {
    let mut rom: [u8; 0x6010] = [0; 0x6010];
    rom[0..4].copy_from_slice(b"SEGA");
    assert!(matches!(Cart::new(&rom), Err(Error::BadHeader)));
}

#[test]
fn test_nrom_prog_rom_mirroring() {
    let mut rom = create_rom();
    rom[0x10] = 0xAB;
    rom[0x11] = 0xCD;

    let mut cart = Cart::new(&rom).unwrap();
    assert_eq!(cart.read(0x8000), 0xAB);
    assert_eq!(cart.read(0xC000), 0xAB);
    assert_eq!(cart.read(0x8001), 0xCD);
    assert_eq!(cart.read(0xC001), 0xCD);
}

#[test]
fn test_nrom_chr_rom() {
    let mut rom = create_rom();
    rom[0x4020] = 0xAB;

    let mut cart = Cart::new(&rom).unwrap();
    assert_eq!(cart.read(0x0010), 0xAB);
}

#[test]
fn truncated_image_is_refused() {
    let rom = create_rom();
    assert!(matches!(Cart::new(&rom[..0x600F]), Err(Error::Truncated)));
    assert!(matches!(Cart::new(&[]), Err(Error::Truncated)));
}

#[test]
fn cart_sections_and_unmapped_reads() {
    let mut rom = create_rom();
    rom[0x4010 + 0x1FFF] = 0x77;
    rom[0x10 + 0x3FFF] = 0x66;
    rom[4] = 0x01;
    let mut cart = Cart::new(&rom).unwrap();
    assert_eq!(cart.read(0x1FFF), 0x77);
    assert_eq!(cart.read(0xBFFF), 0x66);
    assert_eq!(cart.read(0xFFFF), 0x66);
    assert_eq!(cart.read(0x2000), 0);
    assert_eq!(cart.read(0x7FFF), 0);
    assert_eq!(cart.raw_header[4], 0x01);
    cart.write(0x8000, 0x12);
    assert_eq!(cart.read(0x8000), 0);
}

#[test]
fn prg_mirroring_holds_at_every_offset() {
    let mut rom = create_rom();
    for i in 0..0x4000usize {
        rom[0x10 + i] = (i * 7 % 251) as u8;
    }
    let mut cart = Cart::new(&rom).unwrap();
    for o in 0..0x4000u16 {
        assert_eq!(cart.read(0x8000 + o), cart.read(0xC000 + o));
    }
}

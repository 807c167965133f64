use vstd::prelude::*;

use crate::io::IO;
use crate::mem::Memory;
use crate::rom::Rom;

verus! {

pub const RAM_START: u16 = 0x0000;
pub const RAM_END: u16 = 0x07FF;
pub const CART_START: u16 = 0x6000;
pub const CART_END: u16 = 0xFFFF;

/// The NES CPU memory map over 2 KiB of RAM and a cartridge.
///
/// - $0000–$07FF: internal RAM (zero page, stack, general RAM)
/// - $6000–$FFFF: the cartridge, which sees writes at offsets from $6000
/// - elsewhere: reads as zero, ignores writes
pub struct Mapper {
    pub mem: Memory,
    pub rom: Rom,
}

impl Mapper {
    pub fn new(rom: Rom) -> (r: Self)
        ensures
            r.rom == rom,
            forall|a: u16| #[trigger] r.mem.peek(a) == 0,
    {
        Mapper { mem: Memory::new(), rom }
    }
}

impl IO for Mapper {
    open spec fn peek(&self, addr: u16) -> u8 {
        if addr <= RAM_END {
            self.mem.peek(addr)
        } else if addr >= CART_START {
            self.rom.peek(addr)
        } else {
            0
        }
    }

    open spec fn volatile(&self, addr: u16) -> bool {
        false
    }

    open spec fn poke(&self, addr: u16, data: u8) -> Self {
        if addr <= RAM_END {
            Mapper { mem: self.mem.poke(addr, data), ..*self }
        } else if addr >= CART_START {
            Mapper { rom: self.rom.poke((addr - CART_START) as u16, data), ..*self }
        } else {
            *self
        }
    }

    open spec fn retains(&self, addr: u16) -> bool {
        addr <= RAM_END
    }

    proof fn lemma_io_laws(&self, addr: u16, data: u8, other: u16) {
    }

    fn read(&mut self, addr: u16) -> (r: u8) {
        if addr <= RAM_END {
            self.mem.read(addr)
        } else if addr >= CART_START {
            self.rom.read(addr)
        } else {
            0
        }
    }

    fn write(&mut self, addr: u16, data: u8) {
        if addr <= RAM_END {
            self.mem.write(addr, data);
        } else if addr >= CART_START {
            self.rom.write(addr - CART_START, data);
        }
    }
}

} // verus!

use vstd::prelude::*;

use crate::io::IO;

verus! {

/// Length of the header at the front of an image.
pub const HEADER_OFFSET: usize = 0x10;

/// A 32 KiB NROM cartridge with 8 KiB of battery-backed PRG-RAM.
///
/// PRG-RAM reads at $6000–$7FFF and is written at $0000–$1FFF; the 16 KiB
/// ROM reads at $8000 and again, mirrored, at $C000.
pub struct Rom {
    pub header: [u8; 16],
    pub prg: [u8; 8192],
    pub rom: [u8; 16384],
}

impl Rom {
    pub fn new() -> (r: Self)
        ensures
            forall|i: int| 0 <= i < 16 ==> r.header@[i] == 0,
            forall|i: int| 0 <= i < 8192 ==> r.prg@[i] == 0,
            forall|i: int| 0 <= i < 16384 ==> r.rom@[i] == 0,
    {
        Rom { header: [0u8; 16], prg: [0u8; 8192], rom: [0u8; 16384] }
    }

    /// Loads an image: its first 16 bytes are the header, what follows fills
    /// the ROM from its start. The reset vector is then set to $C000.
    pub fn load(&mut self, data: &[u8])
        requires
            data@.len() >= HEADER_OFFSET,
        ensures
            final(self).header@ == data@.subrange(0, 16),
            forall|i: int|
                0 <= i < 16384 ==> final(self).rom@[i] == if i == 0x3FFC {
                    0x00
                } else if i == 0x3FFD {
                    0xC0
                } else if i < data@.len() - 16 {
                    data@[16 + i]
                } else {
                    old(self).rom@[i]
                },
            final(self).prg == old(self).prg,
    {
        let mut i: usize = 0;
        while i < 16
            invariant
                data@.len() >= 16,
                0 <= i <= 16,
                forall|k: int| 0 <= k < i ==> self.header@[k] == data@[k],
                self.rom == old(self).rom,
                self.prg == old(self).prg,
            decreases 16 - i,
        {
            self.header[i] = data[i];
            i = i + 1;
        }
        let n = data.len() - 16;
        let mut i: usize = 0;
        while i < 16384 && i < n
            invariant
                n == data@.len() - 16,
                0 <= i <= 16384,
                i <= n,
                forall|k: int| 0 <= k < 16 ==> self.header@[k] == data@[k],
                forall|k: int|
                    0 <= k < 16384 ==> self.rom@[k] == if k < i {
                        data@[16 + k]
                    } else {
                        old(self).rom@[k]
                    },
                self.prg == old(self).prg,
            decreases 16384 - i,
        {
            self.rom[i] = data[16 + i];
            i = i + 1;
        }
        let ghost filled = self.rom@;
        self.rom[0x3FFC] = 0x00;
        self.rom[0x3FFD] = 0xC0;
        assert(self.rom@ == filled.update(0x3FFC, 0x00).update(0x3FFD, 0xC0));
        assert(self.header@ =~= data@.subrange(0, 16));
    }
}

impl IO for Rom {
    open spec fn peek(&self, addr: u16) -> u8 {
        if 0x6000 <= addr < 0x8000 {
            self.prg@[addr - 0x6000]
        } else if 0x8000 <= addr < 0xC000 {
            self.rom@[addr - 0x8000]
        } else if 0xC000 <= addr {
            self.rom@[addr - 0xC000]
        } else {
            0
        }
    }

    open spec fn volatile(&self, addr: u16) -> bool {
        false
    }

    /// Only PRG-RAM can be written, at $0000–$1FFF.
    open spec fn poke(&self, addr: u16, data: u8) -> Self {
        if addr < 0x2000 {
            Rom { prg: vstd::array::spec_array_update(self.prg, addr as int, data), ..*self }
        } else {
            *self
        }
    }

    open spec fn retains(&self, addr: u16) -> bool {
        false
    }

    proof fn lemma_io_laws(&self, addr: u16, data: u8, other: u16) {
    }

    fn read(&mut self, addr: u16) -> (r: u8) {
        if 0x6000 <= addr && addr < 0x8000 {
            self.prg[(addr - 0x6000) as usize]
        } else if 0x8000 <= addr && addr < 0xC000 {
            self.rom[(addr - 0x8000) as usize]
        } else if 0xC000 <= addr {
            self.rom[(addr - 0xC000) as usize]
        } else {
            0
        }
    }

    fn write(&mut self, addr: u16, data: u8) {
        if addr < 0x2000 {
            self.prg[addr as usize] = data;
        }
    }
}

} // verus!

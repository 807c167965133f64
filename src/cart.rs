use vstd::prelude::*;

use crate::io::IO;

verus! {

/// `std::io::Error`, the error of reading a cartridge file; carried
/// unopened in `Error::IoError`.
#[verifier::external_type_specification]
#[verifier::external_body]
pub struct ExIoError(std::io::Error);

/// Why a cartridge image was refused.
#[derive(Debug)]
pub enum Error {
    /// The cartridge file could not be read.
    IoError(std::io::Error),
    /// The image does not start with `4E 45 53 1A`.
    BadHeader,
    /// The image is shorter than a header, 16 KiB of PRG-ROM and 8 KiB of CHR-ROM.
    Truncated,
}

/// Length of an NROM image: header, PRG-ROM and CHR-ROM.
pub const IMAGE_LEN: usize = 0x6010;

/// Whether a byte sequence starts with the iNES magic `4E 45 53 1A`.
pub open spec fn has_magic(rom: Seq<u8>) -> bool {
    &&& rom.len() >= 4
    &&& rom[0] == 0x4E
    &&& rom[1] == 0x45
    &&& rom[2] == 0x53
    &&& rom[3] == 0x1A
}

/// An NES cartridge with the NROM-128 layout (mapper 0).
pub struct Cart {
    /// 16-byte header
    pub raw_header: [u8; 16],
    /// 16 KiB PRG-ROM
    pub prg_rom: [u8; 16384],
    /// 8 KiB CHR-ROM
    pub chr_rom: [u8; 8192],
}

impl Cart {
    pub open spec fn header(&self) -> Seq<u8> {
        self.raw_header@
    }

    /// What a read of `addr` gives: CHR-ROM below $2000, PRG-ROM (mirrored
    /// every 16 KiB) from $8000 up, zero elsewhere.
    pub open spec fn byte_at(&self, addr: u16) -> u8 {
        if addr < 0x2000 {
            self.chr_rom@[addr as int]
        } else if addr >= 0x8000 {
            self.prg_rom@[(addr - 0x8000) % 0x4000]
        } else {
            0
        }
    }

    /// Decodes an NROM image: a header that starts with `4E 45 53 1A`, then
    /// 16 KiB of PRG-ROM, then 8 KiB of CHR-ROM.
    pub fn new(rom: &[u8]) -> (r: Result<Self, Error>)
        ensures
            r is Ok <==> rom@.len() >= IMAGE_LEN && has_magic(rom@),
            r matches Err(Error::Truncated) <==> rom@.len() < IMAGE_LEN,
            r matches Err(Error::BadHeader) <==> rom@.len() >= IMAGE_LEN && !has_magic(rom@),
            r matches Ok(c) ==> {
                &&& c.header() == rom@.subrange(0, 0x10)
                &&& c.prg_rom@ == rom@.subrange(0x10, 0x4010)
                &&& c.chr_rom@ == rom@.subrange(0x4010, 0x6010)
            },
    {
        if rom.len() < IMAGE_LEN {
            return Err(Error::Truncated);
        }
        if !(rom[0] == 0x4E && rom[1] == 0x45 && rom[2] == 0x53 && rom[3] == 0x1A) {
            return Err(Error::BadHeader);
        }
        let mut raw_header = [0u8; 16];
        let mut i: usize = 0;
        while i < 16
            invariant
                rom@.len() >= IMAGE_LEN,
                0 <= i <= 16,
                forall|k: int| 0 <= k < i ==> raw_header@[k] == rom@[k],
            decreases 16 - i,
        {
            raw_header[i] = rom[i];
            i = i + 1;
        }
        let mut prg_rom = [0u8; 16384];
        let mut i: usize = 0;
        while i < 0x4000
            invariant
                rom@.len() >= IMAGE_LEN,
                0 <= i <= 0x4000,
                forall|k: int| 0 <= k < i ==> prg_rom@[k] == rom@[0x10 + k],
            decreases 0x4000 - i,
        {
            prg_rom[i] = rom[0x10 + i];
            i = i + 1;
        }
        let mut chr_rom = [0u8; 8192];
        let mut i: usize = 0;
        while i < 0x2000
            invariant
                rom@.len() >= IMAGE_LEN,
                0 <= i <= 0x2000,
                forall|k: int| 0 <= k < i ==> chr_rom@[k] == rom@[0x4010 + k],
            decreases 0x2000 - i,
        {
            chr_rom[i] = rom[0x4010 + i];
            i = i + 1;
        }
        let c = Cart { raw_header, prg_rom, chr_rom };
        assert(c.header() =~= rom@.subrange(0, 0x10));
        assert(c.prg_rom@ =~= rom@.subrange(0x10, 0x4010));
        assert(c.chr_rom@ =~= rom@.subrange(0x4010, 0x6010));
        Ok(c)
    }

    /// The byte at `addr`, through a shared reference.
    pub fn byte(&self, addr: u16) -> (r: u8)
        ensures
            r == self.byte_at(addr),
    {
        if addr < 0x2000 {
            self.chr_rom[addr as usize]
        } else if addr >= 0x8000 {
            self.prg_rom[((addr - 0x8000) % 0x4000) as usize]
        } else {
            0
        }
    }
}

/// PRG-ROM is mirrored: every offset below 16 KiB reads the same at $8000
/// and at $C000.
pub proof fn lemma_prg_mirroring(cart: Cart, o: u16)
    requires
        o < 0x4000,
    ensures
        cart.peek((0x8000 + o) as u16) == cart.peek((0xC000 + o) as u16),
{
}

impl IO for Cart {
    open spec fn peek(&self, addr: u16) -> u8 {
        self.byte_at(addr)
    }

    open spec fn volatile(&self, addr: u16) -> bool {
        false
    }

    /// Writes to the cartridge are dropped.
    open spec fn poke(&self, addr: u16, data: u8) -> Self {
        *self
    }

    open spec fn retains(&self, addr: u16) -> bool {
        false
    }

    proof fn lemma_io_laws(&self, addr: u16, data: u8, other: u16) {
    }

    fn read(&mut self, addr: u16) -> (r: u8) {
        self.byte(addr)
    }

    fn write(&mut self, _addr: u16, _data: u8) {
    }
}

} // verus!

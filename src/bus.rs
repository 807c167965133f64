use std::sync::Arc;

use vstd::prelude::*;

use crate::cart::Cart;
use crate::io::IO;
use crate::mem::Memory;
use crate::ppu::Ppu;
use crate::rng::Rng;

verus! {

/// The address at which the entropy source is read.
pub const RNG_ADDR: u16 = 0x00FE;

/// The first address that the cartridge serves.
pub const CART_START: u16 = 0x8000;

/// The system bus: routes each access by address to RAM, the cartridge or
/// the entropy source.
///
/// Reads of $00FE go to the entropy source when one is attached; reads from
/// $8000 up go to the cartridge when one is loaded; every other read, and
/// every write, goes to RAM.
pub struct Bus {
    pub mem: Memory,
    pub ppu: Ppu,
    pub rng: Option<Rng>,
    pub cart: Option<Arc<Cart>>,
}

impl Bus {
    /// Whether the entropy source claims reads of `addr`.
    pub open spec fn rng_claims(&self, addr: u16) -> bool {
        addr == RNG_ADDR && self.rng is Some
    }

    /// Whether the cartridge claims reads of `addr`.
    pub open spec fn cart_claims(&self, addr: u16) -> bool {
        addr >= CART_START && self.cart is Some
    }

    /// A bus with zeroed RAM and nothing attached.
    pub fn new() -> (r: Self)
        ensures
            r.rng is None,
            r.cart is None,
            r.ppu.cart is None,
            forall|a: u16| #[trigger] r.peek(a) == 0,
    {
        Bus { mem: Memory::new(), ppu: Ppu::new(), rng: None, cart: None }
    }

    /// Plugs in a cartridge. The bus and the picture processor each hold
    /// it; neither writes to it.
    pub fn load_cart(&mut self, cart: Cart)
        ensures
            final(self).cart matches Some(c) && *c == cart,
            final(self).ppu.cart matches Some(c) && *c == cart,
            final(self).mem == old(self).mem,
            final(self).rng == old(self).rng,
    {
        let for_ppu = Cart {
            raw_header: cart.raw_header,
            prg_rom: cart.prg_rom,
            chr_rom: cart.chr_rom,
        };
        self.cart = Some(Arc::new(cart));
        self.ppu.cart = Some(Arc::new(for_ppu));
    }

    /// Copies `data` into RAM at `offset`.
    pub fn load_mem(&mut self, data: &[u8], offset: u16)
        requires
            data@.len() + offset <= 65536,
        ensures
            forall|a: u16| #[trigger]
                final(self).mem.peek(a) == if offset <= a < offset + data@.len() {
                    data@[a - offset]
                } else {
                    old(self).mem.peek(a)
                },
            final(self).cart == old(self).cart,
            final(self).rng == old(self).rng,
            final(self).ppu == old(self).ppu,
    {
        self.mem.load(data, offset);
    }
}

impl IO for Bus {
    open spec fn peek(&self, addr: u16) -> u8 {
        if self.rng_claims(addr) {
            0
        } else if self.cart_claims(addr) {
            match self.cart {
                Some(c) => c.byte_at(addr),
                None => 0,
            }
        } else {
            self.mem.peek(addr)
        }
    }

    open spec fn volatile(&self, addr: u16) -> bool {
        self.rng_claims(addr)
    }

    open spec fn poke(&self, addr: u16, data: u8) -> Self {
        Bus { mem: self.mem.poke(addr, data), ..*self }
    }

    open spec fn retains(&self, addr: u16) -> bool {
        !self.rng_claims(addr) && !self.cart_claims(addr)
    }

    proof fn lemma_io_laws(&self, addr: u16, data: u8, other: u16) {
    }

    fn read(&mut self, addr: u16) -> (r: u8) {
        if addr == RNG_ADDR && self.rng.is_some() {
            match &mut self.rng {
                Some(rng) => rng.read(addr),
                None => 0,
            }
        } else if addr >= CART_START && self.cart.is_some() {
            match &self.cart {
                Some(c) => c.byte(addr),
                None => 0,
            }
        } else {
            self.mem.read(addr)
        }
    }

    fn write(&mut self, addr: u16, data: u8) {
        self.mem.write(addr, data);
    }
}

/// With a cartridge loaded, PRG-ROM reads the same at $8000 + o and at
/// $C000 + o for every 14-bit offset o.
pub proof fn lemma_bus_prg_mirroring(bus: Bus, o: u16)
    requires
        bus.cart is Some,
        o < 0x4000,
    ensures
        bus.peek((0x8000 + o) as u16) == bus.peek((0xC000 + o) as u16),
{
}

/// A write to an address that nothing overrides is read back unchanged, and
/// leaves every other such address as it was.
pub proof fn lemma_bus_write_read(bus: Bus, a: u16, v: u8, b: u16)
    requires
        bus.retains(a),
    ensures
        !bus.poke(a, v).volatile(a),
        bus.poke(a, v).peek(a) == v,
        b != a && !bus.volatile(b) ==> bus.poke(a, v).peek(b) == bus.peek(b),
{
}

} // verus!

use std::sync::Arc;

use vstd::prelude::*;

use crate::cart::Cart;
use crate::io::IO;

verus! {

/// The picture processor, as far as its register interface goes: pattern
/// table reads come from the cartridge's CHR-ROM, everything else reads as
/// zero, and writes are dropped.
pub struct Ppu {
    pub cart: Option<Arc<Cart>>,
}

impl Ppu {
    pub fn new() -> (r: Self)
        ensures
            r.cart is None,
    {
        Ppu { cart: None }
    }
}

impl IO for Ppu {
    open spec fn peek(&self, addr: u16) -> u8 {
        match self.cart {
            Some(c) if addr < 0x2000 => c.byte_at(addr),
            _ => 0,
        }
    }

    open spec fn volatile(&self, addr: u16) -> bool {
        false
    }

    open spec fn poke(&self, addr: u16, data: u8) -> Self {
        *self
    }

    open spec fn retains(&self, addr: u16) -> bool {
        false
    }

    proof fn lemma_io_laws(&self, addr: u16, data: u8, other: u16) {
    }

    fn read(&mut self, addr: u16) -> (r: u8) {
        match &self.cart {
            Some(c) if addr < 0x2000 => c.byte(addr),
            _ => 0,
        }
    }

    fn write(&mut self, _addr: u16, _data: u8) {
    }
}

} // verus!

use vstd::prelude::*;

use crate::io::IO;

verus! {

/// Relies on rand::random: a byte drawn from the thread-local generator.
/// Nothing is promised of its value.
#[verifier::external_body]
fn random_byte() -> (r: u8) {
    rand::random::<u8>()
}

/// An entropy source: every read gives a fresh random byte.
pub struct Rng {}

impl Rng {
    pub fn new() -> Self {
        Rng {}
    }
}

impl IO for Rng {
    open spec fn peek(&self, addr: u16) -> u8 {
        0
    }

    open spec fn volatile(&self, addr: u16) -> bool {
        true
    }

    open spec fn poke(&self, addr: u16, data: u8) -> Self {
        *self
    }

    open spec fn retains(&self, addr: u16) -> bool {
        false
    }

    proof fn lemma_io_laws(&self, addr: u16, data: u8, other: u16) {
    }

    fn read(&mut self, _addr: u16) -> (r: u8) {
        random_byte()
    }

    fn write(&mut self, _addr: u16, _data: u8) {
    }
}

} // verus!

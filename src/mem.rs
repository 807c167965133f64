use vstd::prelude::*;

use vstd::array::spec_array_update;

use crate::io::IO;

verus! {

/// A flat 64 KiB RAM.
pub struct Memory(pub [u8; 65536]);

impl Memory {
    /// RAM with every cell at zero.
    pub fn new() -> (r: Self)
        ensures
            forall|a: u16| #[trigger] r.peek(a) == 0,
    {
        Memory([0u8; 65536])
    }

    /// Copies `data` into RAM, starting at `offset`.
    pub fn load(&mut self, data: &[u8], offset: u16)
        requires
            data@.len() + offset <= 65536,
        ensures
            forall|a: u16| #[trigger]
                final(self).peek(a) == if offset <= a < offset + data@.len() {
                    data@[a - offset]
                } else {
                    old(self).peek(a)
                },
    {
        let n = data.len();
        let mut i: usize = 0;
        while i < n
            invariant
                n == data@.len(),
                n + offset <= 65536,
                0 <= i <= n,
                forall|a: u16| #[trigger]
                    self.peek(a) == if offset <= a < offset + i {
                        data@[a - offset]
                    } else {
                        old(self).peek(a)
                    },
            decreases n - i,
        {
            let ghost prev = *self;
            let k = i + offset as usize;
            self.0[k] = data[i];
            assert forall|a: u16|
                #[trigger] self.peek(a) == if offset <= a < offset + i + 1 {
                    data@[a - offset]
                } else {
                    old(self).peek(a)
                } by {
                assert(self.0@ == prev.0@.update(k as int, data@[i as int]));
                assert(prev.peek(a) == prev.0@[a as int]);
            }
            i = i + 1;
        }
    }
}

impl IO for Memory {
    open spec fn peek(&self, addr: u16) -> u8 {
        self.0@[addr as int]
    }

    open spec fn volatile(&self, addr: u16) -> bool {
        false
    }

    open spec fn poke(&self, addr: u16, data: u8) -> Self {
        Memory(spec_array_update(self.0, addr as int, data))
    }

    open spec fn retains(&self, addr: u16) -> bool {
        true
    }

    proof fn lemma_io_laws(&self, addr: u16, data: u8, other: u16) {
    }

    fn read(&mut self, addr: u16) -> (r: u8) {
        self.0[addr as usize]
    }

    fn write(&mut self, addr: u16, data: u8) {
        self.0[addr as usize] = data;
    }
}

} // verus!

use vstd::prelude::*;

use crate::io::IO;

verus! {

/// A line-input device: reads give the bytes of the last line handed in,
/// zero past them.
pub struct Stdin {
    buffer: [u8; 4096],
}

impl Stdin {
    pub closed spec fn byte_at(&self, i: int) -> u8 {
        self.buffer@[i]
    }

    pub fn new() -> (r: Self)
        ensures
            forall|i: int| 0 <= i < 4096 ==> r.byte_at(i) == 0,
    {
        Stdin { buffer: [0u8; 4096] }
    }

    /// Copies a line read by the host to the front of the buffer.
    pub fn fill(&mut self, line: &[u8])
        requires
            line@.len() <= 4096,
        ensures
            forall|i: int|
                0 <= i < 4096 ==> final(self).byte_at(i) == if i < line@.len() {
                    line@[i]
                } else {
                    old(self).byte_at(i)
                },
    {
        let mut i: usize = 0;
        while i < line.len()
            invariant
                line@.len() <= 4096,
                0 <= i <= line@.len(),
                forall|k: int|
                    0 <= k < 4096 ==> self.buffer@[k] == if k < i {
                        line@[k]
                    } else {
                        old(self).buffer@[k]
                    },
            decreases line@.len() - i,
        {
            self.buffer[i] = line[i];
            i = i + 1;
        }
    }
}

impl IO for Stdin {
    closed spec fn peek(&self, addr: u16) -> u8 {
        if addr < 4096 {
            self.buffer@[addr as int]
        } else {
            0
        }
    }

    open spec fn volatile(&self, addr: u16) -> bool {
        false
    }

    open spec fn poke(&self, addr: u16, data: u8) -> Self {
        *self
    }

    open spec fn retains(&self, addr: u16) -> bool {
        false
    }

    proof fn lemma_io_laws(&self, addr: u16, data: u8, other: u16) {
    }

    fn read(&mut self, addr: u16) -> (r: u8)
        ensures
            addr < 4096 ==> r == old(self).byte_at(addr as int),
            addr >= 4096 ==> r == 0,
    {
        if addr < 4096 {
            self.buffer[addr as usize]
        } else {
            0
        }
    }

    fn write(&mut self, _addr: u16, _data: u8) {
    }
}

} // verus!

use vstd::prelude::*;

use crate::io::IO;

verus! {

/// An output device: each write appends a byte to a 4 KiB buffer, which
/// the host takes with `flush`. Bytes written to a full buffer are dropped.
pub struct Stdout {
    buffer: [u8; 4096],
    pos: usize,
}

impl Stdout {
    /// The bytes written since the last flush.
    pub closed spec fn pending(&self) -> Seq<u8> {
        self.buffer@.subrange(0, self.pos as int)
    }

    /// The buffer holds zeros from `pos` on.
    #[verifier::type_invariant]
    closed spec fn wf(&self) -> bool {
        &&& self.pos <= 4096
        &&& forall|i: int| self.pos <= i < 4096 ==> self.buffer@[i] == 0
    }

    pub fn new() -> (r: Self)
        ensures
            r.pending() == Seq::<u8>::empty(),
    {
        let r = Stdout { buffer: [0u8; 4096], pos: 0 };
        assert(r.pending() =~= Seq::<u8>::empty());
        r
    }

    /// Hands back the whole buffer, the pending bytes first and zeros after
    /// them, and empties it.
    pub fn flush(&mut self) -> (r: Vec<u8>)
        ensures
            final(self).pending() == Seq::<u8>::empty(),
            r@.len() == 4096,
            r@.subrange(0, old(self).pending().len() as int) == old(self).pending(),
            forall|i: int| old(self).pending().len() <= i < 4096 ==> r@[i] == 0,
    {
        proof {
            use_type_invariant(&*self);
        }
        let mut out: Vec<u8> = Vec::new();
        let mut i: usize = 0;
        while i < 4096
            invariant
                0 <= i <= 4096,
                out@ == self.buffer@.subrange(0, i as int),
            decreases 4096 - i,
        {
            out.push(self.buffer[i]);
            i = i + 1;
            assert(self.buffer@.subrange(0, i as int) == self.buffer@.subrange(0, i - 1)
                + seq![self.buffer@[i - 1]]);
        }
        let ghost before = *self;
        *self = Stdout { buffer: [0u8; 4096], pos: 0 };
        assert(self.pending() =~= Seq::<u8>::empty());
        assert(out@.subrange(0, before.pos as int) =~= before.pending());
        out
    }
}

impl IO for Stdout {
    open spec fn peek(&self, addr: u16) -> u8 {
        0
    }

    open spec fn volatile(&self, addr: u16) -> bool {
        false
    }

    closed spec fn poke(&self, addr: u16, data: u8) -> Self {
        if self.pos < 4096 {
            Stdout {
                buffer: vstd::array::spec_array_update(self.buffer, self.pos as int, data),
                pos: (self.pos + 1) as usize,
            }
        } else {
            *self
        }
    }

    open spec fn retains(&self, addr: u16) -> bool {
        false
    }

    proof fn lemma_io_laws(&self, addr: u16, data: u8, other: u16) {
    }

    fn read(&mut self, _addr: u16) -> (r: u8) {
        0
    }

    fn write(&mut self, _addr: u16, data: u8)
        ensures
            old(self).pending().len() < 4096 ==> final(self).pending() == old(self).pending().push(
                data,
            ),
            old(self).pending().len() >= 4096 ==> final(self).pending() == old(self).pending(),
    {
        proof {
            use_type_invariant(&*self);
        }
        if self.pos < 4096 {
            let mut buffer = self.buffer;
            buffer[self.pos] = data;
            let ghost before = *self;
            *self = Stdout { buffer, pos: self.pos + 1 };
            assert(self.pending() =~= before.pending().push(data));
        }
    }
}

} // verus!

use vstd::prelude::*;
use vstd::string::StrSliceExecFns;

verus! {

/// A device on the 6502's 16-bit address space.
///
/// Its state is described by four spec functions: what a read of an address
/// hands back (`peek`), whether that read may hand back any byte at all
/// (`volatile`, as for an entropy source), the state after a write (`poke`),
/// and whether a write to an address is read back unchanged (`retains`).
pub trait IO: Sized {
    /// The byte that a read of `addr` hands back, unless `addr` is volatile.
    spec fn peek(&self, addr: u16) -> u8;

    /// Whether a read of `addr` may hand back any byte.
    spec fn volatile(&self, addr: u16) -> bool;

    /// The device after `data` was written to `addr`.
    spec fn poke(&self, addr: u16, data: u8) -> Self;

    /// Whether a byte written to `addr` is read back unchanged.
    spec fn retains(&self, addr: u16) -> bool;

    /// The laws that tie the four spec functions together: writes leave
    /// volatility and retention alone, a retaining address is not volatile,
    /// and between retaining addresses a write only touches its own cell.
    proof fn lemma_io_laws(&self, addr: u16, data: u8, other: u16)
        ensures
            self.poke(addr, data).volatile(other) == self.volatile(other),
            self.poke(addr, data).retains(other) == self.retains(other),
            self.retains(other) ==> !self.volatile(other),
            self.retains(addr) ==> self.poke(addr, data).peek(addr) == data,
            self.retains(addr) && self.retains(other) && addr != other ==> self.poke(
                addr,
                data,
            ).peek(other) == self.peek(other),
    ;

    fn read(&mut self, addr: u16) -> (r: u8)
        ensures
            *final(self) == *old(self),
            !old(self).volatile(addr) ==> r == old(self).peek(addr),
    ;

    fn write(&mut self, addr: u16, data: u8)
        ensures
            *final(self) == old(self).poke(addr, data),
    ;
}

/// The device after each char of `cs` was written, in order, from `addr` on.
pub open spec fn poke_chars<T: IO>(dev: T, addr: u16, cs: Seq<char>) -> T
    decreases cs.len(),
{
    if cs.len() == 0 {
        dev
    } else {
        poke_chars(dev, addr, cs.drop_last()).poke(
            (addr + cs.len() - 1) as u16,
            cs.last() as u8,
        )
    }
}

/// A device that reads as zero everywhere and ignores every write.
pub struct NullIO {}

impl IO for NullIO {
    open spec fn peek(&self, addr: u16) -> u8 {
        0
    }

    open spec fn volatile(&self, addr: u16) -> bool {
        false
    }

    open spec fn poke(&self, addr: u16, data: u8) -> Self {
        *self
    }

    open spec fn retains(&self, addr: u16) -> bool {
        false
    }

    proof fn lemma_io_laws(&self, addr: u16, data: u8, other: u16) {
    }

    fn read(&mut self, addr: u16) -> (r: u8)
        ensures
            r == 0,
    {
        0
    }

    fn write(&mut self, addr: u16, data: u8) {
    }
}

/// Writes the chars of `s` to consecutive addresses from `addr`, each
/// as the low byte of its code.
pub fn write_str<T: IO>(dev: &mut T, addr: u16, s: &str)
    requires
        addr + s@.len() <= 0x10000,
    ensures
        *final(dev) == poke_chars(*old(dev), addr, s@),
{
    let n = s.unicode_len();
    let mut i: usize = 0;
    while i < n
        invariant
            n == s@.len(),
            addr + n <= 0x10000,
            0 <= i <= n,
            *dev == poke_chars(*old(dev), addr, s@.subrange(0, i as int)),
        decreases n - i,
    {
        let c = s.get_char(i);
        dev.write(addr + i as u16, c as u8);
        assert(s@.subrange(0, i + 1).drop_last() == s@.subrange(0, i as int));
        i = i + 1;
    }
    assert(s@.subrange(0, n as int) == s@);
}

/// Reads bytes from `addr` up to the first zero byte or the end of the
/// address space, each as the char of that code.
pub fn read_str<T: IO>(dev: &mut T, addr: u16) -> (r: String)
    ensures
        *final(dev) == *old(dev),
        addr + r@.len() <= 0x10000,
        forall|i: int|
            0 <= i < r@.len() && !old(dev).volatile((addr + i) as u16) ==> old(dev).peek(
                (addr + i) as u16,
            ) != 0 && #[trigger] r@[i] == (old(dev).peek((addr + i) as u16) as char),
        addr + r@.len() < 0x10000 && !old(dev).volatile((addr + r@.len()) as u16) ==> old(dev).peek(
            (addr + r@.len()) as u16,
        ) == 0,
{
    let ghost d0 = *dev;
    let mut buf: Vec<char> = Vec::new();
    let mut pos: u32 = addr as u32;
    while pos <= 0xFFFF
        invariant
            *dev == d0,
            d0 == *old(dev),
            addr <= pos <= 0x10000,
            buf@.len() == pos - addr,
            forall|i: int|
                0 <= i < buf@.len() && !d0.volatile((addr + i) as u16) ==> d0.peek(
                    (addr + i) as u16,
                ) != 0 && #[trigger] buf@[i] == (d0.peek((addr + i) as u16) as char),
            forall|i: int|
                0 <= i < buf@.len() && !d0.volatile((addr + i) as u16) ==> #[trigger] d0.peek(
                    (addr + i) as u16,
                ) != 0,
        decreases 0x10000 - pos,
    {
        let b = dev.read(pos as u16);
        if b == 0 {
            let r = crate::text::to_string(buf);
            return r;
        }
        let ghost prev = buf@;
        buf.push(b as char);
        proof {
            assert(buf@ == prev.push(b as char));
            assert((addr + prev.len()) as u16 == pos as u16);
        }
        pos = pos + 1;
    }
    crate::text::to_string(buf)
}

} // verus!

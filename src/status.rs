use vstd::prelude::*;

verus! {

/// The processor status register, one field per flag.
///
/// As a byte, from bit 7 down to bit 0: N V U B D I Z C.
#[derive(Debug, Clone, Copy, PartialEq, Eq, Structural)]
pub struct Status {
    /// Negative
    pub n: bool,
    /// Overflow
    pub v: bool,
    /// Unused; set after reset and whenever the register is restored
    pub u: bool,
    /// Break; set by `BRK`
    pub b: bool,
    /// Binary-coded decimal arithmetic
    pub d: bool,
    /// Interrupt disable
    pub i: bool,
    /// Zero
    pub z: bool,
    /// Carry
    pub c: bool,
}

/// Whether the bit of weight `w` (a power of two) is set in `x`.
pub open spec fn bit(x: u8, w: nat) -> bool {
    (x as nat / w) % 2 == 1
}

/// `w` where the flag is set, else zero.
pub open spec fn weight(f: bool, w: nat) -> nat {
    if f {
        w
    } else {
        0
    }
}

impl Status {
    /// The register as a byte.
    pub open spec fn spec_bits(self) -> u8 {
        (weight(self.n, 128) + weight(self.v, 64) + weight(self.u, 32) + weight(self.b, 16) + weight(
            self.d,
            8,
        ) + weight(self.i, 4) + weight(self.z, 2) + weight(self.c, 1)) as u8
    }

    /// The register that a byte encodes.
    pub open spec fn spec_from_bits(x: u8) -> Status {
        Status {
            n: bit(x, 128),
            v: bit(x, 64),
            u: bit(x, 32),
            b: bit(x, 16),
            d: bit(x, 8),
            i: bit(x, 4),
            z: bit(x, 2),
            c: bit(x, 1),
        }
    }

    /// No flag set.
    pub fn empty() -> (r: Status)
        ensures
            r.spec_bits() == 0,
            r == Status::spec_from_bits(0),
    {
        Status { n: false, v: false, u: false, b: false, d: false, i: false, z: false, c: false }
    }

    pub fn bits(&self) -> (r: u8)
        ensures
            r == self.spec_bits(),
    {
        let mut r: u8 = 0;
        if self.n {
            r = r + 128;
        }
        if self.v {
            r = r + 64;
        }
        if self.u {
            r = r + 32;
        }
        if self.b {
            r = r + 16;
        }
        if self.d {
            r = r + 8;
        }
        if self.i {
            r = r + 4;
        }
        if self.z {
            r = r + 2;
        }
        if self.c {
            r = r + 1;
        }
        r
    }

    pub fn from_bits(x: u8) -> (r: Status)
        ensures
            r == Status::spec_from_bits(x),
    {
        Status {
            n: x / 128 % 2 == 1,
            v: x / 64 % 2 == 1,
            u: x / 32 % 2 == 1,
            b: x / 16 % 2 == 1,
            d: x / 8 % 2 == 1,
            i: x / 4 % 2 == 1,
            z: x / 2 % 2 == 1,
            c: x % 2 == 1,
        }
    }

    /// A register survives the round trip through its byte.
    pub proof fn lemma_bits_round_trip(self)
        ensures
            Status::spec_from_bits(self.spec_bits()) == self,
    {
        let x = self.spec_bits();
        assert(x as nat == weight(self.n, 128) + weight(self.v, 64) + weight(self.u, 32) + weight(
            self.b,
            16,
        ) + weight(self.d, 8) + weight(self.i, 4) + weight(self.z, 2) + weight(self.c, 1));
    }
}

} // verus!

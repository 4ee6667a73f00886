//! Register pairs, the flag word and the packed program status word.
use vstd::prelude::*;
use vstd::arithmetic::power2::pow2;

verus! {

/// High byte of a 16-bit word.
pub open spec fn hi(w: u16) -> u8 {
    (w / 256) as u8
}

/// Low byte of a 16-bit word.
pub open spec fn lo(w: u16) -> u8 {
    (w % 256) as u8
}

/// The 16-bit word made of a high and a low byte.
pub open spec fn word(h: u8, l: u8) -> u16 {
    (h * 256 + l) as u16
}

/// A 16-bit register pair, readable and writable both as a word and as
/// two bytes; a write through one view is seen by the other at once.
#[derive(Clone, Copy, Debug, PartialEq, Eq, Structural)]
pub struct RegisterPair {
    pub word: u16,
}

impl RegisterPair {
    pub fn new() -> (r: RegisterPair)
        ensures
            r.word == 0,
    {
        RegisterPair { word: 0 }
    }

    pub fn both(self) -> (r: u16)
        ensures
            r == self.word,
    {
        self.word
    }

    /// The low byte (`C`, `E` or `L`).
    pub fn lsb(self) -> (r: u8)
        ensures
            r == lo(self.word),
    {
        (self.word % 256) as u8
    }

    /// The high byte (`B`, `D` or `H`).
    pub fn msb(self) -> (r: u8)
        ensures
            r == hi(self.word),
    {
        (self.word / 256) as u8
    }

    pub fn set_both(&mut self, value: u16)
        ensures
            final(self).word == value,
    {
        self.word = value;
    }

    pub fn set_lsb(&mut self, value: u8)
        ensures
            final(self).word == word(hi(old(self).word), value),
    {
        self.word = (self.word / 256) * 256 + value as u16;
    }

    pub fn set_msb(&mut self, value: u8)
        ensures
            final(self).word == word(value, lo(old(self).word)),
    {
        self.word = (value as u16) * 256 + self.word % 256;
    }
}

/// Number of set bits of a natural number.
pub open spec fn popcount(n: nat) -> nat
    decreases n,
{
    if n == 0 {
        0
    } else {
        n % 2 + popcount(n / 2)
    }
}

/// The parity flag of a byte: set iff it has an even number of set bits.
pub open spec fn even_parity(v: u8) -> bool {
    popcount(v as nat) % 2 == 0
}

/// Even parity of a byte, counted bit by bit.
pub fn parity(v: u8) -> (r: bool)
    ensures
        r == even_parity(v),
{
    let mut rest: u8 = v;
    let mut odd: bool = false;
    while rest > 0
        invariant
            (popcount(rest as nat) + (if odd { 1int } else { 0int })) % 2 == popcount(v as nat) % 2,
        decreases rest,
    {
        if rest % 2 == 1 {
            odd = !odd;
        }
        rest = rest / 2;
    }
    !odd
}

/// The five condition flags of the 8080.
#[derive(Clone, Copy, Debug, PartialEq, Eq, Structural)]
pub struct Flags {
    pub zero: bool,
    pub sign: bool,
    pub parity: bool,
    pub carry: bool,
    pub aux_carry: bool,
}

/// The flags that a result byte `v` gives to `S`, `Z` and `P`, with the
/// carry and auxiliary carry given apart.
pub open spec fn result_flags(v: u8, carry: bool, aux_carry: bool) -> Flags {
    Flags { zero: v == 0, sign: v >= 0x80, parity: even_parity(v), carry, aux_carry }
}

pub open spec fn bit_value(b: bool, weight: int) -> int {
    if b {
        weight
    } else {
        0
    }
}

/// The packed status byte `S Z 0 AC 0 P 1 CY` (bits 7 to 0).
pub open spec fn psw_of(f: Flags) -> u8 {
    (bit_value(f.sign, 0x80) + bit_value(f.zero, 0x40) + bit_value(f.aux_carry, 0x10)
        + bit_value(f.parity, 0x04) + 0x02 + bit_value(f.carry, 0x01)) as u8
}

/// Bit `k` of a byte.
pub open spec fn bit_of(v: u8, k: nat) -> bool {
    (v as nat / pow2(k)) % 2 == 1
}

/// The flags that a status byte holds; its bits 5, 3 and 1 are ignored.
pub open spec fn flags_of_psw(v: u8) -> Flags {
    Flags {
        sign: bit_of(v, 7),
        zero: bit_of(v, 6),
        aux_carry: bit_of(v, 4),
        parity: bit_of(v, 2),
        carry: bit_of(v, 0),
    }
}

impl Flags {
    /// All flags clear.
    pub fn new() -> (r: Flags)
        ensures
            !r.zero && !r.sign && !r.parity && !r.carry && !r.aux_carry,
    {
        Flags { zero: false, sign: false, parity: false, carry: false, aux_carry: false }
    }

    /// Loads the flags from a status byte, as `POP PSW` does.
    pub fn set_with_psw(&mut self, value: u8)
        ensures
            *final(self) == flags_of_psw(value),
    {
        proof {
            reveal_pow2_upto_7();
            assert((value & 0x80 != 0) == ((value as nat / 128) % 2 == 1)) by (bit_vector);
            assert((value & 0x40 != 0) == ((value as nat / 64) % 2 == 1)) by (bit_vector);
            assert((value & 0x10 != 0) == ((value as nat / 16) % 2 == 1)) by (bit_vector);
            assert((value & 0x04 != 0) == ((value as nat / 4) % 2 == 1)) by (bit_vector);
            assert((value & 0x01 != 0) == ((value as nat / 1) % 2 == 1)) by (bit_vector);
        }
        self.sign = value & 0x80 != 0;
        self.zero = value & 0x40 != 0;
        self.aux_carry = value & 0x10 != 0;
        self.parity = value & 0x04 != 0;
        self.carry = value & 0x01 != 0;
    }

    /// The status byte that `PUSH PSW` stores.
    pub fn get_psw(&self) -> (r: u8)
        ensures
            r == psw_of(*self),
    {
        let mut psw: u8 = 0x02;
        if self.sign {
            psw = psw + 0x80;
        }
        if self.zero {
            psw = psw + 0x40;
        }
        if self.aux_carry {
            psw = psw + 0x10;
        }
        if self.parity {
            psw = psw + 0x04;
        }
        if self.carry {
            psw = psw + 0x01;
        }
        psw
    }

    pub fn set_sign(&mut self, value: u8)
        ensures
            *final(self) == (Flags { sign: value >= 0x80, ..*old(self) }),
    {
        self.sign = value >= 0x80;
    }

    pub fn set_zero(&mut self, value: u8)
        ensures
            *final(self) == (Flags { zero: value == 0, ..*old(self) }),
    {
        self.zero = value == 0;
    }

    pub fn set_parity(&mut self, value: u8)
        ensures
            *final(self) == (Flags { parity: even_parity(value), ..*old(self) }),
    {
        self.parity = parity(value);
    }

    /// Sets the auxiliary carry from a low-nibble sum (or difference,
    /// wrapped): it is set iff the sum leaves the nibble.
    pub fn set_aux_carry(&mut self, nibble_sum: u8)
        ensures
            *final(self) == (Flags { aux_carry: nibble_sum > 0xf, ..*old(self) }),
    {
        self.aux_carry = nibble_sum > 0xf;
    }

    /// Sets the carry from an 8-bit result computed in 16 bits (a
    /// difference wrapped modulo 65536): set iff it leaves the byte.
    pub fn set_carry(&mut self, value: u16)
        ensures
            *final(self) == (Flags { carry: value > 0xff, ..*old(self) }),
    {
        self.carry = value > 0xff;
    }

    /// Sets `S`, `Z`, `P` from a result byte and `AC` from a low-nibble
    /// sum; the carry is kept.
    pub fn set_all_but_carry(&mut self, value: u8, nibble_sum: u8)
        ensures
            *final(self) == result_flags(value, old(self).carry, nibble_sum > 0xf),
    {
        self.set_zero(value);
        self.set_sign(value);
        self.set_parity(value);
        self.set_aux_carry(nibble_sum);
    }

    /// Sets `S`, `Z`, `P` from the low byte of a 16-bit result and the
    /// carry from its high byte; the auxiliary carry is kept.
    pub fn set_all_but_aux_carry(&mut self, value: u16)
        ensures
            *final(self) == result_flags(lo(value), value > 0xff, old(self).aux_carry),
    {
        let low = (value % 256) as u8;
        self.set_zero(low);
        self.set_parity(low);
        self.set_sign(low);
        self.set_carry(value);
    }

    /// Sets every flag: `S`, `Z`, `P` from the low byte of a 16-bit result,
    /// the carry from its high byte and `AC` from a low-nibble sum.
    pub fn set_all(&mut self, value: u16, nibble_sum: u8)
        ensures
            *final(self) == result_flags(lo(value), value > 0xff, nibble_sum > 0xf),
    {
        self.set_all_but_aux_carry(value);
        self.set_aux_carry(nibble_sum);
    }
}

/// A status byte written from flags reads back as the same flags, and
/// holds bit 5 and bit 3 clear and bit 1 set.
pub proof fn lemma_psw_round_trip(f: Flags)
    ensures
        flags_of_psw(psw_of(f)) == f,
        !bit_of(psw_of(f), 5),
        !bit_of(psw_of(f), 3),
        bit_of(psw_of(f), 1),
{
    reveal_pow2_upto_7();
}

proof fn reveal_pow2_upto_7()
    ensures
        pow2(0) == 1,
        pow2(1) == 2,
        pow2(2) == 4,
        pow2(3) == 8,
        pow2(4) == 16,
        pow2(5) == 32,
        pow2(6) == 64,
        pow2(7) == 128,
{
    vstd::arithmetic::power2::lemma2_to64();
}

} // verus!

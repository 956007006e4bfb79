use vstd::prelude::*;

verus! {

/// Mask of the carry flag (bit 0).
pub const CARRY_BIT: u8 = 0b0000_0001;
/// Mask of the zero flag (bit 1).
pub const ZERO_BIT: u8 = 0b0000_0010;
/// Mask of the interrupt-disable flag (bit 2).
pub const INT_BIT: u8 = 0b0000_0100;
/// Mask of the decimal-mode flag (bit 3).
pub const DEC_BIT: u8 = 0b0000_1000;
/// Mask of the break flag (bit 4).
pub const BRK_BIT: u8 = 0b0001_0000;
/// Mask of the overflow flag (bit 6).
pub const OVERFLOW_BIT: u8 = 0b0100_0000;
/// Mask of the negative flag (bit 7).
pub const NEG_BIT: u8 = 0b1000_0000;

/// The byte `r` with the bits of `mask` set when `on`, cleared otherwise.
pub open spec fn with_bits(r: u8, mask: u8, on: bool) -> u8 {
    if on {
        r | mask
    } else {
        r & !mask
    }
}

/// Whether any bit of `mask` is set in `r`.
pub open spec fn has_bits(r: u8, mask: u8) -> bool {
    r & mask != 0
}

/// The status byte after the negative and zero flags were taken from `v`.
pub open spec fn with_nz(r: u8, v: u8) -> u8 {
    with_bits(with_bits(r, ZERO_BIT, v == 0), NEG_BIT, v & 0x80 != 0)
}

/// The processor status register, packed as `NV-BDIZC`.
#[derive(Clone, Copy, PartialEq, Eq, Debug, Structural)]
pub struct Flags {
    pub register: u8,
}

impl Flags {
    pub fn new(register: u8) -> (r: Self)
        ensures
            r.register == register,
    {
        Self { register }
    }

    fn put(&mut self, mask: u8, flag: bool)
        ensures
            final(self).register == with_bits(old(self).register, mask, flag),
    {
        if flag {
            self.register = self.register | mask;
        } else {
            self.register = self.register & !mask;
        }
    }

    pub fn carry(&self) -> (r: bool)
        ensures
            r == has_bits(self.register, CARRY_BIT),
    {
        self.register & CARRY_BIT != 0
    }

    pub fn carry_byte(&self) -> (r: u8)
        ensures
            r == self.register & CARRY_BIT,
    {
        self.register & CARRY_BIT
    }

    pub fn set_carry(&mut self, flag: bool)
        ensures
            final(self).register == with_bits(old(self).register, CARRY_BIT, flag),
    {
        self.put(CARRY_BIT, flag);
    }

    pub fn zero(&self) -> (r: bool)
        ensures
            r == has_bits(self.register, ZERO_BIT),
    {
        self.register & ZERO_BIT != 0
    }

    pub fn zero_byte(&self) -> (r: u8)
        ensures
            r == self.register & ZERO_BIT,
    {
        self.register & ZERO_BIT
    }

    pub fn set_zero(&mut self, flag: bool)
        ensures
            final(self).register == with_bits(old(self).register, ZERO_BIT, flag),
    {
        self.put(ZERO_BIT, flag);
    }

    pub fn interrupt_disabled(&self) -> (r: bool)
        ensures
            r == has_bits(self.register, INT_BIT),
    {
        self.register & INT_BIT != 0
    }

    pub fn interrupt_disabled_byte(&self) -> (r: u8)
        ensures
            r == self.register & INT_BIT,
    {
        self.register & INT_BIT
    }

    pub fn set_interrupt_disabled(&mut self, flag: bool)
        ensures
            final(self).register == with_bits(old(self).register, INT_BIT, flag),
    {
        self.put(INT_BIT, flag);
    }

    pub fn decimal_mode(&self) -> (r: bool)
        ensures
            r == has_bits(self.register, DEC_BIT),
    {
        self.register & DEC_BIT != 0
    }

    pub fn decimal_mode_byte(&self) -> (r: u8)
        ensures
            r == self.register & DEC_BIT,
    {
        self.register & DEC_BIT
    }

    pub fn set_decimal_mode(&mut self, flag: bool)
        ensures
            final(self).register == with_bits(old(self).register, DEC_BIT, flag),
    {
        self.put(DEC_BIT, flag);
    }

    pub fn break_cmd(&self) -> (r: bool)
        ensures
            r == has_bits(self.register, BRK_BIT),
    {
        self.register & BRK_BIT != 0
    }

    pub fn break_cmd_byte(&self) -> (r: u8)
        ensures
            r == self.register & BRK_BIT,
    {
        self.register & BRK_BIT
    }

    pub fn set_break_cmd(&mut self, flag: bool)
        ensures
            final(self).register == with_bits(old(self).register, BRK_BIT, flag),
    {
        self.put(BRK_BIT, flag);
    }

    pub fn overflow(&self) -> (r: bool)
        ensures
            r == has_bits(self.register, OVERFLOW_BIT),
    {
        self.register & OVERFLOW_BIT != 0
    }

    pub fn overflow_byte(&self) -> (r: u8)
        ensures
            r == self.register & OVERFLOW_BIT,
    {
        self.register & OVERFLOW_BIT
    }

    pub fn set_overflow(&mut self, flag: bool)
        ensures
            final(self).register == with_bits(old(self).register, OVERFLOW_BIT, flag),
    {
        self.put(OVERFLOW_BIT, flag);
    }

    pub fn negative(&self) -> (r: bool)
        ensures
            r == has_bits(self.register, NEG_BIT),
    {
        self.register & NEG_BIT != 0
    }

    pub fn negative_byte(&self) -> (r: u8)
        ensures
            r == self.register & NEG_BIT,
    {
        self.register & NEG_BIT
    }

    pub fn set_negative(&mut self, flag: bool)
        ensures
            final(self).register == with_bits(old(self).register, NEG_BIT, flag),
    {
        self.put(NEG_BIT, flag);
    }

    /// Takes the negative and zero flags from `v`.
    pub fn set_nz(&mut self, v: u8)
        ensures
            final(self).register == with_nz(old(self).register, v),
    {
        self.set_zero(v == 0);
        self.set_negative(v & 0x80 != 0);
    }

    pub fn set_register(&mut self, reg: u8)
        ensures
            final(self).register == reg,
    {
        self.register = reg;
    }

    pub fn get_register(&self) -> (r: u8)
        ensures
            r == self.register,
    {
        self.register
    }
}

/// Setting a flag and reading it back gives the value set, and no other bit moves.
pub proof fn lemma_flag_round_trip(r: u8, mask: u8, on: bool)
    requires
        mask != 0,
    ensures
        has_bits(with_bits(r, mask, on), mask) == on,
        with_bits(r, mask, on) & !mask == r & !mask,
{
    if on {
        assert((r | mask) & mask != 0) by (bit_vector)
            requires mask != 0;
        assert((r | mask) & !mask == r & !mask) by (bit_vector);
    } else {
        assert((r & !mask) & mask == 0) by (bit_vector);
        assert((r & !mask) & !mask == r & !mask) by (bit_vector);
    }
}

/// After the negative and zero flags are taken from a result `v`,
/// N is bit 7 of `v`, Z tells whether `v` is zero, and the other six bits stay.
pub proof fn lemma_nz_from_result(r: u8, v: u8)
    ensures
        has_bits(with_nz(r, v), NEG_BIT) == ((v >> 7u8) & 1 == 1),
        has_bits(with_nz(r, v), ZERO_BIT) == (v == 0),
        with_nz(r, v) & 0b0111_1101 == r & 0b0111_1101,
{
    let z = v == 0;
    let n = v & 0x80 != 0;
    assert(n == ((v >> 7u8) & 1 == 1)) by (bit_vector)
        requires n == (v & 0x80 != 0);
    if z {
        if n {
            assert(((r | 2) | 0x80) & 0x80 != 0 && ((r | 2) | 0x80) & 2 != 0 && ((r | 2) | 0x80) & 0x7d == r & 0x7d) by (bit_vector);
        } else {
            assert(((r | 2) & !0x80u8) & 0x80 == 0 && ((r | 2) & !0x80u8) & 2 != 0 && ((r | 2) & !0x80u8) & 0x7d == r & 0x7d) by (bit_vector);
        }
    } else {
        if n {
            assert(((r & !2u8) | 0x80) & 0x80 != 0 && ((r & !2u8) | 0x80) & 2 == 0 && ((r & !2u8) | 0x80) & 0x7d == r & 0x7d) by (bit_vector);
        } else {
            assert(((r & !2u8) & !0x80u8) & 0x80 == 0 && ((r & !2u8) & !0x80u8) & 2 == 0 && ((r & !2u8) & !0x80u8) & 0x7d == r & 0x7d) by (bit_vector);
        }
    }
}

} // verus!

//! SM83 register file.
use vstd::prelude::*;

verus! {

pub const FLAG_Z: u8 = 0x80;
pub const FLAG_N: u8 = 0x40;
pub const FLAG_H: u8 = 0x20;
pub const FLAG_C: u8 = 0x10;

/// The eight 8-bit registers plus the stack pointer and program counter.
#[derive(Debug, Clone, Copy, PartialEq, Eq, Structural)]
pub struct Registers {
    pub a: u8,
    pub f: u8,
    pub b: u8,
    pub c: u8,
    pub d: u8,
    pub e: u8,
    pub h: u8,
    pub l: u8,
    pub sp: u16,
    pub pc: u16,
}

/// A 16-bit value from its high and low bytes.
pub open spec fn word(hi: u8, lo: u8) -> u16 {
    (hi as int * 256 + lo as int) as u16
}

/// High byte of a 16-bit value.
pub open spec fn hi_byte(v: u16) -> u8 {
    (v as int / 256) as u8
}

/// Low byte of a 16-bit value.
pub open spec fn lo_byte(v: u16) -> u8 {
    (v as int % 256) as u8
}

/// The F register byte holding the given Z, N, H and C flags (low nibble zero).
pub open spec fn flag_bits(z: bool, n: bool, h: bool, c: bool) -> u8 {
    ((if z { 0x80u8 } else { 0u8 }) | (if n { 0x40u8 } else { 0u8 })) | ((if h { 0x20u8 } else {
        0u8
    }) | (if c { 0x10u8 } else { 0u8 }))
}

pub open spec fn z_of(f: u8) -> bool {
    f & 0x80 != 0
}

pub open spec fn n_of(f: u8) -> bool {
    f & 0x40 != 0
}

pub open spec fn h_of(f: u8) -> bool {
    f & 0x20 != 0
}

pub open spec fn c_of(f: u8) -> bool {
    f & 0x10 != 0
}

/// Reading the flags back out of a flag byte gives the flags that built it.
pub proof fn lemma_flag_bits(z: bool, n: bool, h: bool, c: bool)
    ensures
        z_of(flag_bits(z, n, h, c)) == z,
        n_of(flag_bits(z, n, h, c)) == n,
        h_of(flag_bits(z, n, h, c)) == h,
        c_of(flag_bits(z, n, h, c)) == c,
        flag_bits(z, n, h, c) & 0x0F == 0,
{
    assert(z_of(flag_bits(z, n, h, c)) == z && n_of(flag_bits(z, n, h, c)) == n && h_of(
        flag_bits(z, n, h, c),
    ) == h && c_of(flag_bits(z, n, h, c)) == c && flag_bits(z, n, h, c) & 0x0F == 0)
        by (bit_vector);
}

/// Builds the flag byte for the given Z, N, H and C flags.
pub fn make_flags(z: bool, n: bool, h: bool, c: bool) -> (r: u8)
    ensures
        r == flag_bits(z, n, h, c),
        z_of(r) == z,
        n_of(r) == n,
        h_of(r) == h,
        c_of(r) == c,
{
    proof {
        lemma_flag_bits(z, n, h, c);
    }
    ((if z { 0x80u8 } else { 0u8 }) | (if n { 0x40u8 } else { 0u8 })) | ((if h { 0x20u8 } else {
        0u8
    }) | (if c { 0x10u8 } else { 0u8 }))
}

/// Splitting a word into bytes and joining them again gives the word back.
pub proof fn lemma_word_bytes(v: u16)
    ensures
        word(hi_byte(v), lo_byte(v)) == v,
{
}

/// Joining two bytes into a word and splitting it again gives the bytes back.
pub proof fn lemma_bytes_word(hi: u8, lo: u8)
    ensures
        hi_byte(word(hi, lo)) == hi,
        lo_byte(word(hi, lo)) == lo,
{
}

impl Default for Registers {
    fn default() -> (r: Registers)
        ensures
            r == (Registers { a: 0, f: 0, b: 0, c: 0, d: 0, e: 0, h: 0, l: 0, sp: 0, pc: 0 }),
    {
        Registers { a: 0, f: 0, b: 0, c: 0, d: 0, e: 0, h: 0, l: 0, sp: 0, pc: 0 }
    }
}

impl Registers {
    /// Register values the DMG boot ROM leaves behind.
    pub open spec fn dmg_spec() -> Registers {
        Registers {
            a: 0x01,
            f: 0xB0,
            b: 0x00,
            c: 0x13,
            d: 0x00,
            e: 0xD8,
            h: 0x01,
            l: 0x4D,
            sp: 0xFFFE,
            pc: 0x0100,
        }
    }

    /// Register values the DMG boot ROM leaves behind.
    pub fn dmg() -> (r: Self)
        ensures
            r == Self::dmg_spec(),
    {
        Registers {
            a: 0x01,
            f: 0xB0,
            b: 0x00,
            c: 0x13,
            d: 0x00,
            e: 0xD8,
            h: 0x01,
            l: 0x4D,
            sp: 0xFFFE,
            pc: 0x0100,
        }
    }

    pub open spec fn af_spec(&self) -> u16 {
        word(self.a, self.f)
    }

    pub open spec fn bc_spec(&self) -> u16 {
        word(self.b, self.c)
    }

    pub open spec fn de_spec(&self) -> u16 {
        word(self.d, self.e)
    }

    pub open spec fn hl_spec(&self) -> u16 {
        word(self.h, self.l)
    }

    #[verifier::when_used_as_spec(af_spec)]
    pub fn af(&self) -> (r: u16)
        ensures
            r == word(self.a, self.f),
    {
        self.a as u16 * 256 + self.f as u16
    }

    #[verifier::when_used_as_spec(bc_spec)]
    pub fn bc(&self) -> (r: u16)
        ensures
            r == word(self.b, self.c),
    {
        self.b as u16 * 256 + self.c as u16
    }

    #[verifier::when_used_as_spec(de_spec)]
    pub fn de(&self) -> (r: u16)
        ensures
            r == word(self.d, self.e),
    {
        self.d as u16 * 256 + self.e as u16
    }

    #[verifier::when_used_as_spec(hl_spec)]
    pub fn hl(&self) -> (r: u16)
        ensures
            r == word(self.h, self.l),
    {
        self.h as u16 * 256 + self.l as u16
    }

    pub open spec fn with_af(self, v: u16) -> Registers {
        Registers { a: hi_byte(v), f: lo_byte(v) & 0xF0, ..self }
    }

    pub open spec fn with_bc(self, v: u16) -> Registers {
        Registers { b: hi_byte(v), c: lo_byte(v), ..self }
    }

    pub open spec fn with_de(self, v: u16) -> Registers {
        Registers { d: hi_byte(v), e: lo_byte(v), ..self }
    }

    pub open spec fn with_hl(self, v: u16) -> Registers {
        Registers { h: hi_byte(v), l: lo_byte(v), ..self }
    }

    /// Load AF; the low nibble of F always reads as zero.
    pub fn set_af(&mut self, v: u16)
        ensures
            *final(self) == old(self).with_af(v),
    {
        self.a = (v / 256) as u8;
        self.f = ((v % 256) as u8) & 0xF0;
    }

    pub fn set_bc(&mut self, v: u16)
        ensures
            *final(self) == old(self).with_bc(v),
    {
        self.b = (v / 256) as u8;
        self.c = (v % 256) as u8;
    }

    pub fn set_de(&mut self, v: u16)
        ensures
            *final(self) == old(self).with_de(v),
    {
        self.d = (v / 256) as u8;
        self.e = (v % 256) as u8;
    }

    pub fn set_hl(&mut self, v: u16)
        ensures
            *final(self) == old(self).with_hl(v),
    {
        self.h = (v / 256) as u8;
        self.l = (v % 256) as u8;
    }

    /// Whether any flag of `mask` is set in F.
    pub fn flag(&self, mask: u8) -> (r: bool)
        ensures
            r == (self.f & mask != 0),
    {
        self.f & mask != 0
    }

    pub open spec fn with_flag(self, mask: u8, on: bool) -> Registers {
        Registers { f: (if on { self.f | mask } else { self.f & !mask }) & 0xF0, ..self }
    }

    /// Set or clear the flags of `mask`; the low nibble of F is cleared.
    pub fn set_flag(&mut self, mask: u8, on: bool)
        ensures
            *final(self) == old(self).with_flag(mask, on),
    {
        if on {
            self.f = self.f | mask;
        } else {
            self.f = self.f & !mask;
        }
        self.f = self.f & 0xF0;
    }
}

/// Writing a register pair and reading it back gives the value written (for
/// AF, with the low nibble of F cleared).
pub proof fn lemma_pairs_roundtrip(r: Registers, v: u16)
    ensures
        r.with_bc(v).bc_spec() == v,
        r.with_de(v).de_spec() == v,
        r.with_hl(v).hl_spec() == v,
        r.with_af(v).af_spec() == v & 0xFFF0,
{
    let lo = lo_byte(v);
    assert(lo & 0xF0 == lo - lo % 16) by (bit_vector);
    assert(v & 0xFFF0 == v - v % 16) by (bit_vector);
}

/// Setting a flag and reading it back gives the value set; the other flags
/// keep their values.
pub proof fn lemma_flag_roundtrip(r: Registers, mask: u8, on: bool, other: u8)
    requires
        mask == FLAG_Z || mask == FLAG_N || mask == FLAG_H || mask == FLAG_C,
        other == FLAG_Z || other == FLAG_N || other == FLAG_H || other == FLAG_C,
        other != mask,
    ensures
        (r.with_flag(mask, on).f & mask != 0) == on,
        (r.with_flag(mask, on).f & other != 0) == (r.f & other != 0),
        r.with_flag(mask, on).f & 0x0F == 0,
{
    let f = r.f;
    let g = (if on { f | mask } else { f & !mask }) & 0xF0u8;
    assert(((g & mask != 0) == on) && ((g & other != 0) == (f & other != 0)) && (g & 0x0F == 0))
        by (bit_vector)
        requires
            g == (if on { f | mask } else { f & !mask }) & 0xF0u8,
            mask == 0x80u8 || mask == 0x40u8 || mask == 0x20u8 || mask == 0x10u8,
            other == 0x80u8 || other == 0x40u8 || other == 0x20u8 || other == 0x10u8,
            other != mask,
    ;
}

} // verus!

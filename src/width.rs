use vstd::prelude::*;

verus! {

/// The width of a register access, in bits.
#[derive(Clone, Copy, Debug, PartialEq, Eq, Structural)]
pub enum Width {
    W8,
    W16,
    W32,
    W64,
}

/// The all-ones value of `w` bits.
pub open spec fn mask_of(w: Width) -> u64 {
    match w {
        Width::W8 => 0xFFu64,
        Width::W16 => 0xFFFFu64,
        Width::W32 => 0xFFFF_FFFFu64,
        Width::W64 => 0xFFFF_FFFF_FFFF_FFFFu64,
    }
}

/// The number of bits in a value of width `w`.
pub open spec fn bits_of(w: Width) -> nat {
    match w {
        Width::W8 => 8,
        Width::W16 => 16,
        Width::W32 => 32,
        Width::W64 => 64,
    }
}

/// `v` is representable in `w` bits.
pub open spec fn fits(w: Width, v: u64) -> bool {
    v <= mask_of(w)
}

/// The low `w` bits of `v`.
pub open spec fn low_bits(v: u64, w: Width) -> u64 {
    v & mask_of(w)
}

/// `sub` is no wider than `parent`.
pub open spec fn narrower_or_equal(sub: Width, parent: Width) -> bool {
    bits_of(sub) <= bits_of(parent)
}

impl Width {
    /// The number of bits in a value of this width.
    pub fn bits(&self) -> (r: u32)
        ensures
            r as nat == bits_of(*self),
    {
        match self {
            Width::W8 => 8,
            Width::W16 => 16,
            Width::W32 => 32,
            Width::W64 => 64,
        }
    }

    /// The all-ones value of this width.
    pub fn mask(&self) -> (r: u64)
        ensures
            r == mask_of(*self),
    {
        match self {
            Width::W8 => 0xFF,
            Width::W16 => 0xFFFF,
            Width::W32 => 0xFFFF_FFFF,
            Width::W64 => 0xFFFF_FFFF_FFFF_FFFF,
        }
    }

    /// Whether `v` is representable in this width.
    pub fn holds(&self, v: u64) -> (r: bool)
        ensures
            r == fits(*self, v),
    {
        v <= self.mask()
    }
}

/// Keeping the low `w` bits of a value leaves it unchanged exactly when the
/// value is representable in `w` bits.
pub proof fn lemma_low_bits_of_fitting(v: u64, w: Width)
    ensures
        fits(w, v) <==> low_bits(v, w) == v,
        fits(w, low_bits(v, w)),
{
    match w {
        Width::W8 => {
            assert(v <= 0xFFu64 <==> v & 0xFFu64 == v) by (bit_vector);
            assert(v & 0xFFu64 <= 0xFFu64) by (bit_vector);
        },
        Width::W16 => {
            assert(v <= 0xFFFFu64 <==> v & 0xFFFFu64 == v) by (bit_vector);
            assert(v & 0xFFFFu64 <= 0xFFFFu64) by (bit_vector);
        },
        Width::W32 => {
            assert(v <= 0xFFFF_FFFFu64 <==> v & 0xFFFF_FFFFu64 == v) by (bit_vector);
            assert(v & 0xFFFF_FFFFu64 <= 0xFFFF_FFFFu64) by (bit_vector);
        },
        Width::W64 => {
            assert(v & 0xFFFF_FFFF_FFFF_FFFFu64 == v) by (bit_vector);
        },
    }
}

/// The low `w` bits of `v` are `v` modulo two to the power of `w`'s bit count.
pub proof fn lemma_low_bits_is_modulo(v: u64, w: Width)
    ensures
        low_bits(v, w) as int == v as int % (mask_of(w) as int + 1),
{
    match w {
        Width::W8 => {
            assert(v & 0xFFu64 == v % 0x100u64) by (bit_vector);
        },
        Width::W16 => {
            assert(v & 0xFFFFu64 == v % 0x1_0000u64) by (bit_vector);
        },
        Width::W32 => {
            assert(v & 0xFFFF_FFFFu64 == v % 0x1_0000_0000u64) by (bit_vector);
        },
        Width::W64 => {
            assert(v & 0xFFFF_FFFF_FFFF_FFFFu64 == v) by (bit_vector);
            vstd::arithmetic::div_mod::lemma_small_mod(v as nat, 0x1_0000_0000_0000_0000nat);
        },
    }
}

/// Taking the low bits twice keeps the bits of the narrower width.
pub proof fn lemma_low_bits_nested(v: u64, sub: Width, parent: Width)
    requires
        narrower_or_equal(sub, parent),
    ensures
        low_bits(low_bits(v, parent), sub) == low_bits(v, sub),
{
    let (a, b) = (mask_of(sub), mask_of(parent));
    assert(a & b == a) by {
        match (sub, parent) {
            (Width::W8, Width::W16) => { assert(0xFFu64 & 0xFFFFu64 == 0xFFu64) by (bit_vector); },
            (Width::W8, Width::W32) => { assert(0xFFu64 & 0xFFFF_FFFFu64 == 0xFFu64) by (bit_vector); },
            (Width::W16, Width::W32) => { assert(0xFFFFu64 & 0xFFFF_FFFFu64 == 0xFFFFu64) by (bit_vector); },
            _ => { assert(a & 0xFFFF_FFFF_FFFF_FFFFu64 == a) by (bit_vector); assert(a & a == a) by (bit_vector); },
        }
    }
    assert((v & b) & a == v & a) by (bit_vector)
        requires
            a & b == a,
    ;
}

} // verus!

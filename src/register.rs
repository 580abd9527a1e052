use vstd::prelude::*;

use crate::width::{Width, fits, low_bits, mask_of, narrower_or_equal, lemma_low_bits_nested, lemma_low_bits_is_modulo};

verus! {

/// The contents of a 64-bit general-purpose register after a write of `v`
/// at width `w` over the contents `old`.
///
/// A write of 64 or 32 bits sets the whole register (a 32-bit write
/// zero-extends); a write of 16 or 8 bits replaces the low bits and keeps the
/// rest.
pub open spec fn written(old: u64, w: Width, v: u64) -> u64 {
    match w {
        Width::W64 | Width::W32 => v,
        Width::W16 | Width::W8 => (old & !mask_of(w)) | v,
    }
}

/// A 64-bit general-purpose register whose low 32, 16 and 8 bits can also be
/// read and written under their own names, as `rax`, `eax`, `ax` and `al`.
pub struct Register {
    contents: u64,
}

impl View for Register {
    type V = u64;

    /// The full 64-bit contents of the register.
    closed spec fn view(&self) -> u64 {
        self.contents
    }
}

impl Register {
    /// A register holding `contents`.
    pub fn new(contents: u64) -> (r: Register)
        ensures
            r@ == contents,
    {
        Register { contents }
    }

    fn write(&mut self, width: Width, value: u64)
        requires
            fits(width, value),
        ensures
            final(self)@ == written(old(self)@, width, value),
    {
        match width {
            Width::W64 | Width::W32 => {
                self.contents = value;
            },
            Width::W16 | Width::W8 => {
                self.contents = (self.contents & !width.mask()) | value;
            },
        }
    }

    /// Reads the low `width` bits of the register, under the alias of that
    /// width. The register is left as it was, so reading again gives the
    /// same value.
    pub fn read(&self, width: Width) -> (r: u64)
        ensures
            r == low_bits(self@, width),
            fits(width, r),
    {
        proof {
            crate::width::lemma_low_bits_of_fitting(self@, width);
        }
        self.contents & width.mask()
    }

    /// Loads the constant `value` into the register at `width` and reads the
    /// register back at that width.
    pub fn store_immediate(&mut self, width: Width, value: u64) -> (r: u64)
        requires
            fits(width, value),
        ensures
            final(self)@ == written(old(self)@, width, value),
            r == value,
    {
        self.write(width, value);
        proof {
            lemma_read_after_write(old(self)@, width, value);
        }
        self.read(width)
    }

    /// Copies the host value `input` into the register at `width` and reads
    /// the register back at that width.
    pub fn store_from_variable(&mut self, width: Width, input: u64) -> (r: u64)
        requires
            fits(width, input),
        ensures
            final(self)@ == written(old(self)@, width, input),
            r == input,
    {
        self.write(width, input);
        proof {
            lemma_read_after_write(old(self)@, width, input);
        }
        self.read(width)
    }

    /// Reads the low `sub_width` bits of a register populated at
    /// `parent_width`, through the alias of the narrower width: the value
    /// read at the parent width modulo two to the power of `sub_width`.
    pub fn read_subregister(&self, parent_width: Width, sub_width: Width) -> (r: u64)
        requires
            narrower_or_equal(sub_width, parent_width),
        ensures
            r == low_bits(self@, sub_width),
            r == low_bits(low_bits(self@, parent_width), sub_width),
            r as int == low_bits(self@, parent_width) as int % (mask_of(sub_width) as int + 1),
    {
        proof {
            lemma_low_bits_nested(self@, sub_width, parent_width);
            lemma_low_bits_is_modulo(low_bits(self@, parent_width), sub_width);
        }
        self.read(sub_width)
    }
}

/// Reading a register at the width it was just written at gives back the
/// value written, whatever the register held before.
pub proof fn lemma_read_after_write(old: u64, w: Width, v: u64)
    requires
        fits(w, v),
    ensures
        low_bits(written(old, w, v), w) == v,
{
    crate::width::lemma_low_bits_of_fitting(v, w);
    match w {
        Width::W16 => {
            assert(v <= 0xFFFFu64 ==> ((old & !0xFFFFu64) | v) & 0xFFFFu64 == v) by (bit_vector);
        },
        Width::W8 => {
            assert(v <= 0xFFu64 ==> ((old & !0xFFu64) | v) & 0xFFu64 == v) by (bit_vector);
        },
        _ => {},
    }
}

/// A write of 16 or 8 bits keeps the bits above its width; a write of 32 bits
/// clears the upper half of the register.
pub proof fn lemma_write_upper_bits(old: u64, w: Width, v: u64)
    requires
        fits(w, v),
    ensures
        (w == Width::W16 || w == Width::W8) ==> written(old, w, v) & !mask_of(w) == old & !mask_of(w),
        w == Width::W32 ==> written(old, w, v) >> 32u64 == 0,
{
    match w {
        Width::W16 => {
            assert(v <= 0xFFFFu64 ==> ((old & !0xFFFFu64) | v) & !0xFFFFu64 == old & !0xFFFFu64) by (bit_vector);
        },
        Width::W8 => {
            assert(v <= 0xFFu64 ==> ((old & !0xFFu64) | v) & !0xFFu64 == old & !0xFFu64) by (bit_vector);
        },
        Width::W32 => {
            assert(v <= 0xFFFF_FFFFu64 ==> v >> 32u64 == 0) by (bit_vector);
        },
        Width::W64 => {},
    }
}

/// Once a 64-bit value `v` is stored, the 32-, 16- and 8-bit aliases of the
/// register read `v & 0xFFFF_FFFF`, `v & 0xFFFF` and `v & 0xFF`.
pub proof fn lemma_subregister_aliasing(old: u64, v: u64)
    ensures
        low_bits(written(old, Width::W64, v), Width::W64) == v,
        low_bits(written(old, Width::W64, v), Width::W32) == v & 0xFFFF_FFFFu64,
        low_bits(written(old, Width::W64, v), Width::W16) == v & 0xFFFFu64,
        low_bits(written(old, Width::W64, v), Width::W8) == v & 0xFFu64,
{
    crate::width::lemma_low_bits_of_fitting(v, Width::W64);
}

} // verus!

use vstd::prelude::*;

use crate::register::{Register, written, lemma_read_after_write};
use crate::width::{Width, fits, low_bits, narrower_or_equal, lemma_low_bits_nested};

verus! {

/// Where the value stored by a probe comes from.
#[derive(Clone, Copy, Debug, PartialEq, Eq, Structural)]
pub enum Source {
    /// A constant encoded in the store instruction itself.
    Immediate,
    /// A value held by the surrounding program.
    Variable,
}

/// The one way a probe fails: the register did not hold what was expected.
#[derive(Clone, Copy, Debug, PartialEq, Eq, Structural)]
pub enum ProbeError {
    AssertionMismatch { expected: u64, observed: u64 },
}

/// One probe: store `value` into the register at `store_width`, then read the
/// register back through the alias of `read_width`.
#[derive(Clone, Copy, Debug, PartialEq, Eq, Structural)]
pub struct ProbeCase {
    pub source: Source,
    pub store_width: Width,
    pub value: u64,
    pub read_width: Width,
}

impl ProbeCase {
    /// The value fits the store width and the read goes through an alias no
    /// wider than the store.
    pub open spec fn well_formed(&self) -> bool {
        fits(self.store_width, self.value) && narrower_or_equal(self.read_width, self.store_width)
    }

    /// What the read must observe: the low bits of the stored value.
    pub open spec fn expected_spec(&self) -> u64 {
        low_bits(self.value, self.read_width)
    }

    /// A probe of the given parts, or `None` where the value does not fit the
    /// store width or the read is wider than the store.
    pub fn new(source: Source, store_width: Width, value: u64, read_width: Width) -> (r: Option<ProbeCase>)
        ensures
            r is Some <==> fits(store_width, value) && narrower_or_equal(read_width, store_width),
            r matches Some(c) ==> c.source == source && c.store_width == store_width && c.value == value
                && c.read_width == read_width,
    {
        if store_width.holds(value) && read_width.bits() <= store_width.bits() {
            Some(ProbeCase { source, store_width, value, read_width })
        } else {
            None
        }
    }

    /// The value the read must observe.
    pub fn expected(&self) -> (r: u64)
        ensures
            r == self.expected_spec(),
    {
        self.value & self.read_width.mask()
    }

    /// Performs the probe on `reg` and returns what the read observed, which is
    /// always the expected value.
    pub fn run(&self, reg: &mut Register) -> (observed: u64)
        requires
            self.well_formed(),
        ensures
            final(reg)@ == written(old(reg)@, self.store_width, self.value),
            observed == low_bits(final(reg)@, self.read_width),
            observed == self.expected_spec(),
    {
        match self.source {
            Source::Immediate => {
                reg.store_immediate(self.store_width, self.value);
            },
            Source::Variable => {
                reg.store_from_variable(self.store_width, self.value);
            },
        }
        proof {
            lemma_read_after_write(old(reg)@, self.store_width, self.value);
            lemma_low_bits_nested(reg@, self.read_width, self.store_width);
        }
        reg.read_subregister(self.store_width, self.read_width)
    }

    /// Compares an observed value against the expected one.
    pub fn check(&self, observed: u64) -> (r: Result<u64, ProbeError>)
        ensures
            r is Ok <==> observed == self.expected_spec(),
            r matches Ok(v) ==> v == observed,
            r matches Err(e) ==> e == (ProbeError::AssertionMismatch {
                expected: self.expected_spec(),
                observed,
            }),
    {
        let expected = self.expected();
        if observed == expected {
            Ok(observed)
        } else {
            Err(ProbeError::AssertionMismatch { expected, observed })
        }
    }
}

/// The values the demonstration probes observe, in order.
pub open spec fn demo_observations() -> Seq<u64> {
    seq![
        17u64,
        0xff00_0000_0000_0000u64,
        0x1234_5678_90ab_cdefu64,
        0x90ab_cdefu64,
        0xcdefu64,
        0xefu64,
        2u64,
        3u64,
        4u64,
        0xfe00_fe00_fe00_fe00u64,
    ]
}

/// The demonstration probes, in order: an immediate in the 32-bit alias; a
/// host value in the full register; a 64-bit immediate read back whole and
/// through each narrower alias; three more 32-bit immediates; one more 64-bit
/// host value.
pub fn demo_cases() -> (r: Vec<ProbeCase>)
    ensures
        r@.len() == demo_observations().len(),
        forall|i: int| 0 <= i < r@.len() ==> #[trigger] r@[i].well_formed(),
        forall|i: int| 0 <= i < r@.len() ==> #[trigger] r@[i].expected_spec() == demo_observations()[i],
{
    let wide: u64 = 0x1234_5678_90ab_cdef;
    let mut r: Vec<ProbeCase> = Vec::new();
    r.push(ProbeCase { source: Source::Immediate, store_width: Width::W32, value: 17, read_width: Width::W32 });
    r.push(ProbeCase { source: Source::Variable, store_width: Width::W64, value: 0xff00_0000_0000_0000, read_width: Width::W64 });
    r.push(ProbeCase { source: Source::Immediate, store_width: Width::W64, value: wide, read_width: Width::W64 });
    r.push(ProbeCase { source: Source::Immediate, store_width: Width::W64, value: wide, read_width: Width::W32 });
    r.push(ProbeCase { source: Source::Immediate, store_width: Width::W64, value: wide, read_width: Width::W16 });
    r.push(ProbeCase { source: Source::Immediate, store_width: Width::W64, value: wide, read_width: Width::W8 });
    r.push(ProbeCase { source: Source::Immediate, store_width: Width::W32, value: 2, read_width: Width::W32 });
    r.push(ProbeCase { source: Source::Immediate, store_width: Width::W32, value: 3, read_width: Width::W32 });
    r.push(ProbeCase { source: Source::Immediate, store_width: Width::W32, value: 4, read_width: Width::W32 });
    r.push(ProbeCase { source: Source::Variable, store_width: Width::W64, value: 0xfe00_fe00_fe00_fe00, read_width: Width::W64 });
    proof {
        assert(0x1234_5678_90ab_cdefu64 & 0xFFFF_FFFF_FFFF_FFFFu64 == 0x1234_5678_90ab_cdefu64) by (bit_vector);
        assert(0x1234_5678_90ab_cdefu64 & 0xFFFF_FFFFu64 == 0x90ab_cdefu64) by (bit_vector);
        assert(0x1234_5678_90ab_cdefu64 & 0xFFFFu64 == 0xcdefu64) by (bit_vector);
        assert(0x1234_5678_90ab_cdefu64 & 0xFFu64 == 0xefu64) by (bit_vector);
        assert(17u64 & 0xFFFF_FFFFu64 == 17u64) by (bit_vector);
        assert(2u64 & 0xFFFF_FFFFu64 == 2u64) by (bit_vector);
        assert(3u64 & 0xFFFF_FFFFu64 == 3u64) by (bit_vector);
        assert(4u64 & 0xFFFF_FFFFu64 == 4u64) by (bit_vector);
        assert(0xff00_0000_0000_0000u64 & 0xFFFF_FFFF_FFFF_FFFFu64 == 0xff00_0000_0000_0000u64) by (bit_vector);
        assert(0xfe00_fe00_fe00_fe00u64 & 0xFFFF_FFFF_FFFF_FFFFu64 == 0xfe00_fe00_fe00_fe00u64) by (bit_vector);
    }
    r
}

/// Runs every demonstration probe in order on one register and checks each
/// observation. All of them match, so the result is the list of observed
/// values.
pub fn run_demos() -> (r: Result<Vec<u64>, ProbeError>)
    ensures
        r matches Ok(seen) && seen@ == demo_observations(),
{
    let cases = demo_cases();
    let mut reg = Register::new(0);
    let mut seen: Vec<u64> = Vec::new();
    let mut i: usize = 0;
    while i < cases.len()
        invariant
            i <= cases@.len(),
            cases@.len() == demo_observations().len(),
            forall|j: int| 0 <= j < cases@.len() ==> #[trigger] cases@[j].well_formed(),
            forall|j: int| 0 <= j < cases@.len() ==> #[trigger] cases@[j].expected_spec() == demo_observations()[j],
            seen@ == demo_observations().subrange(0, i as int),
        decreases cases@.len() - i,
    {
        let case = cases[i];
        let observed = case.run(&mut reg);
        match case.check(observed) {
            Ok(v) => seen.push(v),
            Err(e) => return Err(e),
        }
        i = i + 1;
        assert(seen@ =~= demo_observations().subrange(0, i as int));
    }
    assert(seen@ =~= demo_observations());
    Ok(seen)
}

} // verus!

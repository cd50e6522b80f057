//! Progress fractions and the events that carry them to the host.
//!
//! A fraction is kept as an exact ratio of two integers, so that the bounds
//! and the order of what a stage reports can be stated without rounding.

use vstd::prelude::*;

verus! {

/// A ratio `numer / denom`. The pipeline only hands out ratios between zero
/// and one: see [`Fraction::wf`].
#[derive(Clone, Copy, Debug)]
pub struct Fraction {
    pub numer: u128,
    pub denom: u128,
}

impl Fraction {
    /// The ratio is defined and lies between zero and one.
    pub open spec fn wf(self) -> bool {
        0 < self.denom && self.numer <= self.denom
    }

    /// `self` is at most `other`, as ratios.
    pub open spec fn le(self, other: Fraction) -> bool {
        self.numer * other.denom <= other.numer * self.denom
    }

    /// The point `part / whole` of the way through the band that runs from
    /// `low` tenths to `high` tenths. A part beyond the whole counts as the
    /// whole; of an empty whole every part is the whole.
    pub open spec fn in_band(low: int, high: int, part: int, whole: int) -> Fraction {
        if whole <= 0 {
            Fraction { numer: high as u128, denom: 10 }
        } else {
            let done = if part < whole {
                part
            } else {
                whole
            };
            Fraction {
                numer: (low * whole + (high - low) * done) as u128,
                denom: (10 * whole) as u128,
            }
        }
    }

    /// `n` hundredths.
    pub(crate) fn hundredths(n: u8) -> (fraction: Fraction)
        requires
            n <= 100,
        ensures
            fraction == (Fraction { numer: n as u128, denom: 100 }),
            fraction.wf(),
    {
        Fraction { numer: n as u128, denom: 100 }
    }

    /// The whole: one.
    pub fn one() -> (fraction: Fraction)
        ensures
            fraction == (Fraction { numer: 1, denom: 1 }),
            fraction.wf(),
    {
        Fraction { numer: 1, denom: 1 }
    }

    /// The point `part / whole` of the way from `low` tenths to `high`
    /// tenths.
    pub(crate) fn within_band(low: u8, high: u8, part: u64, whole: u64) -> (fraction: Fraction)
        requires
            low <= high <= 10,
        ensures
            fraction == Fraction::in_band(low as int, high as int, part as int, whole as int),
            fraction.wf(),
            (Fraction { numer: low as u128, denom: 10 }).le(fraction),
            fraction.le(Fraction { numer: high as u128, denom: 10 }),
    {
        if whole == 0 {
            Fraction { numer: high as u128, denom: 10 }
        } else {
            let done: u64 = if part < whole {
                part
            } else {
                whole
            };
            let span: u128 = (high - low) as u128;
            assert(span * (done as u128) <= 10 * (done as u128)) by (nonlinear_arith)
                requires
                    span <= 10,
            ;
            assert((low as u128) * (whole as u128) <= 10 * (whole as u128)) by (nonlinear_arith)
                requires
                    low <= 10,
            ;
            let numer: u128 = (low as u128) * (whole as u128) + span * (done as u128);
            let denom: u128 = 10 * (whole as u128);
            proof {
                lemma_band_bounds(low as int, high as int, done as int, whole as int);
            }
            Fraction { numer, denom }
        }
    }
}

/// A point of a band lies between the band's ends.
pub proof fn lemma_band_bounds(low: int, high: int, done: int, whole: int)
    requires
        0 <= low <= high <= 10,
        0 <= done <= whole,
        0 < whole,
    ensures
        0 <= low * whole + (high - low) * done <= 10 * whole,
        low * (10 * whole) <= (low * whole + (high - low) * done) * 10,
        (low * whole + (high - low) * done) * 10 <= high * (10 * whole),
{
    assert((high - low) * done <= (high - low) * whole) by (nonlinear_arith)
        requires
            0 <= high - low,
            0 <= done <= whole,
    ;
    assert(low * whole + (high - low) * whole == high * whole) by (nonlinear_arith);
    assert(high * whole <= 10 * whole) by (nonlinear_arith)
        requires
            high <= 10,
            0 < whole,
    ;
    assert(0 <= (high - low) * done) by (nonlinear_arith)
        requires
            0 <= high - low,
            0 <= done,
    ;
    assert(0 <= low * whole) by (nonlinear_arith)
        requires
            0 <= low,
            0 < whole,
    ;
    assert(low * (10 * whole) == (low * whole) * 10) by (nonlinear_arith);
    assert(high * (10 * whole) == (high * whole) * 10) by (nonlinear_arith);
}

/// Every point of a band is a fraction between the band's ends.
pub proof fn lemma_in_band(low: int, high: int, part: int, whole: int)
    requires
        0 <= low <= high <= 10,
        0 <= part,
        0 <= whole <= u64::MAX,
    ensures
        Fraction::in_band(low, high, part, whole).wf(),
        (Fraction { numer: low as u128, denom: 10 }).le(Fraction::in_band(low, high, part, whole)),
        Fraction::in_band(low, high, part, whole).le(Fraction { numer: high as u128, denom: 10 }),
{
    if whole > 0 {
        let done = if part < whole {
            part
        } else {
            whole
        };
        lemma_band_bounds(low, high, done, whole);
    }
}

/// Within one band, more of the same whole is never a smaller fraction.
pub proof fn lemma_in_band_monotone(low: int, high: int, less: int, more: int, whole: int)
    requires
        0 <= low <= high <= 10,
        0 <= less <= more,
        0 <= whole <= u64::MAX,
    ensures
        Fraction::in_band(low, high, less, whole).le(Fraction::in_band(low, high, more, whole)),
{
    if whole > 0 {
        let first = if less < whole {
            less
        } else {
            whole
        };
        let second = if more < whole {
            more
        } else {
            whole
        };
        lemma_band_bounds(low, high, first, whole);
        lemma_band_bounds(low, high, second, whole);
        assert((high - low) * first <= (high - low) * second) by (nonlinear_arith)
            requires
                0 <= high - low,
                first <= second,
        ;
        assert((low * whole + (high - low) * first) * (10 * whole) <= (low * whole + (high - low)
            * second) * (10 * whole)) by (nonlinear_arith)
            requires
                (high - low) * first <= (high - low) * second,
                0 < whole,
        ;
    }
}

/// The order of ratios is transitive.
pub proof fn lemma_le_transitive(a: Fraction, b: Fraction, c: Fraction)
    requires
        0 < a.denom,
        0 < b.denom,
        0 < c.denom,
        a.le(b),
        b.le(c),
    ensures
        a.le(c),
{
    let (an, ad) = (a.numer as int, a.denom as int);
    let (bn, bd) = (b.numer as int, b.denom as int);
    let (cn, cd) = (c.numer as int, c.denom as int);
    assert(an * cd <= cn * ad) by (nonlinear_arith)
        requires
            0 < ad,
            0 < bd,
            0 < cd,
            0 <= an,
            0 <= bn,
            0 <= cn,
            an * bd <= bn * ad,
            bn * cd <= cn * bd,
    ;
}

/// Every fraction of `fractions` is defined and lies between zero and one.
pub open spec fn all_within_unit(fractions: Seq<Fraction>) -> bool {
    forall|i: int| 0 <= i < fractions.len() ==> (#[trigger] fractions[i]).wf()
}

/// No fraction of `fractions` is smaller than one before it.
pub open spec fn non_decreasing(fractions: Seq<Fraction>) -> bool {
    forall|i: int, j: int|
        0 <= i < j < fractions.len() ==> (#[trigger] fractions[i]).le(#[trigger] fractions[j])
}

/// What the pipeline tells the host while it works.
#[derive(Debug)]
pub enum Event {
    /// A step of downloading, loading or warming up a model.
    ModelLoading { message: String, progress: Fraction },
    /// A piece of the answer to a prompt; empty when the answer is complete.
    PromptResponse { message: String },
}

/// An [`Event`] with its texts as sequences of characters.
pub enum EventView {
    ModelLoading { message: Seq<char>, progress: Fraction },
    PromptResponse { message: Seq<char> },
}

impl View for Event {
    type V = EventView;

    open spec fn view(&self) -> EventView {
        match self {
            Event::ModelLoading { message, progress } => EventView::ModelLoading {
                message: message@,
                progress: *progress,
            },
            Event::PromptResponse { message } => EventView::PromptResponse { message: message@ },
        }
    }
}

} // verus!

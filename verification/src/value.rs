//! Fixed-point control values: clamping, domain scaling, and the boolean
//! threshold applied to switch-like inputs.
//!
//! A value of `1000` steps stands for one whole unit, so the host's
//! normalized pot position `1.0` is stored as `1000`.

use vstd::prelude::*;

verus! {

/// Number of fixed-point steps in one unit.
pub const UNIT: i32 = 1000;

/// Largest magnitude a control-voltage offset can take, in steps.
pub const CV_SPAN: i32 = 10000;

/// Inclusive range of effective values a parameter may take.
#[derive(Clone, Copy, PartialEq, Eq, Structural, Debug)]
pub struct Domain {
    pub lo: i32,
    pub hi: i32,
}

impl Domain {
    /// A domain is non-empty and stays well inside `i32`, so that the
    /// merging arithmetic cannot overflow.
    pub open spec fn wf(self) -> bool {
        -100000 <= self.lo <= self.hi <= 100000
    }
}

/// What `clamp` returns: `value` pulled to the nearest point of `lo..=hi`.
pub open spec fn clamped(value: int, lo: int, hi: int) -> int {
    if value < lo {
        lo
    } else if value > hi {
        hi
    } else {
        value
    }
}

/// Clamp `value` to the inclusive range `lo..=hi`; out-of-domain input is
/// never an error.
pub fn clamp(value: i32, lo: i32, hi: i32) -> (r: i32)
    requires
        lo <= hi,
    ensures
        r == clamped(value as int, lo as int, hi as int),
{
    if value < lo {
        lo
    } else if value > hi {
        hi
    } else {
        value
    }
}

/// Where a clamped pot position (in `0..=UNIT` steps) lands inside `dom`.
pub open spec fn scaled(pot: int, dom: Domain) -> int {
    dom.lo + pot * (dom.hi - dom.lo) / (UNIT as int)
}

/// A pot position scaled onto its domain never leaves the domain.
pub proof fn lemma_scaled_in_domain(pot: int, dom: Domain)
    requires
        dom.wf(),
        0 <= pot <= UNIT as int,
    ensures
        dom.lo <= scaled(pot, dom) <= dom.hi,
{
    let span = dom.hi - dom.lo;
    let u = UNIT as int;
    vstd::arithmetic::mul::lemma_mul_nonnegative(pot, span);
    vstd::arithmetic::mul::lemma_mul_inequality(pot, u, span);
    vstd::arithmetic::div_mod::lemma_div_pos_is_pos(pot * span, u);
    vstd::arithmetic::div_mod::lemma_div_is_ordered(pot * span, u * span, u);
    vstd::arithmetic::div_mod::lemma_div_multiples_vanish(span, u);
}

/// Scale a stored pot position onto the parameter's domain.
pub fn scale_pot(pot: i32, dom: Domain) -> (r: i32)
    requires
        dom.wf(),
        0 <= pot <= UNIT,
    ensures
        r == scaled(pot as int, dom),
        dom.lo <= r <= dom.hi,
{
    proof {
        lemma_scaled_in_domain(pot as int, dom);
        assert(pot * (dom.hi - dom.lo) <= 1000 * 200000) by (nonlinear_arith)
            requires
                0 <= pot <= 1000,
                0 <= dom.hi - dom.lo <= 200000,
        ;
    }
    let span: i32 = dom.hi - dom.lo;
    let offset: u64 = pot as u64 * (span as u64) / (UNIT as u64);
    dom.lo + offset as i32
}

/// Threshold turning a raw host value into a switch state: strictly above
/// half a unit means "on", half a unit itself is still "off".
pub fn switch_on(value: i32) -> (r: bool)
    ensures
        r == (value > UNIT / 2),
{
    value > UNIT / 2
}

} // verus!

//! The phase accumulator: a position in one waveform period, kept in `[0, 1)`.
use vstd::prelude::*;

verus! {

/// The phase reached from `start` after `n` advances of `step`, over `resolution`.
pub open spec fn phase_after(start: int, step: int, resolution: int, n: nat) -> int
    recommends
        resolution > 0,
{
    (start + n * step) % resolution
}

/// A position in one period, as the fraction `numerator / resolution`.
pub struct Phase {
    numerator: u32,
    resolution: u32,
}

impl Phase {
    /// The numerator of the fraction of the period.
    pub closed spec fn num(self) -> nat {
        self.numerator as nat
    }

    /// The denominator: how many parts one period is divided into.
    pub closed spec fn den(self) -> nat {
        self.resolution as nat
    }

    /// The phase lies in `[0, 1)`.
    pub open spec fn wf(self) -> bool {
        0 < self.den() && self.num() < self.den()
    }

    /// A phase at the start of the period, with `resolution` parts per period.
    pub fn new(resolution: u32) -> (r: Phase)
        requires
            resolution > 0,
        ensures
            r.wf(),
            r.num() == 0,
            r.den() == resolution,
    {
        Phase { numerator: 0, resolution }
    }

    /// The numerator of the fraction of the period.
    pub fn numerator(&self) -> (r: u32)
        ensures
            r == self.num(),
    {
        self.numerator
    }

    /// How many parts one period is divided into.
    pub fn resolution(&self) -> (r: u32)
        ensures
            r == self.den(),
    {
        self.resolution
    }

    /// Moves the phase on by `step` parts, wrapping round into `[0, 1)`.
    pub fn advance(&mut self, step: u32)
        requires
            old(self).wf(),
        ensures
            final(self).wf(),
            final(self).den() == old(self).den(),
            final(self).num() == (old(self).num() + step) % (old(self).den() as int),
    {
        let sum: u64 = self.numerator as u64 + step as u64;
        self.numerator = (sum % (self.resolution as u64)) as u32;
    }

    /// Hands out the current numerator, then advances the phase by `step`.
    ///
    /// The sample of this call is read at the phase before the step, so a
    /// step that changes from call to call only moves the phase of the next one.
    pub fn tick(&mut self, step: u32) -> (r: u32)
        requires
            old(self).wf(),
        ensures
            r == old(self).num(),
            final(self).wf(),
            final(self).den() == old(self).den(),
            final(self).num() == (old(self).num() + step) % (old(self).den() as int),
    {
        let current = self.numerator;
        self.advance(step);
        current
    }
}

} // verus!

verus! {

/// One more advance of `step` takes the phase after `n` advances to the phase
/// after `n + 1`.
pub proof fn lemma_phase_after_next(start: int, step: int, resolution: int, n: nat)
    requires
        resolution > 0,
    ensures
        phase_after(start, step, resolution, n + 1) == (phase_after(start, step, resolution, n)
            + step) % resolution,
{
    let x = start + n * step;
    assert(start + (n + 1) * step == x + step) by (nonlinear_arith)
        requires
            x == start + n * step,
    ;
    vstd::arithmetic::div_mod::lemma_add_mod_noop(x, step, resolution);
    vstd::arithmetic::div_mod::lemma_add_mod_noop(x % resolution, step, resolution);
    vstd::arithmetic::div_mod::lemma_mod_twice(x, resolution);
}

/// When the step divides the resolution (the frequency divides the sample rate),
/// the phase repeats every `resolution / step` advances: one full period.
pub proof fn lemma_phase_periodic(start: int, step: int, resolution: int, n: nat)
    requires
        resolution > 0,
        step > 0,
        resolution % step == 0,
    ensures
        phase_after(start, step, resolution, n + (resolution / step) as nat) == phase_after(
            start,
            step,
            resolution,
            n,
        ),
{
    let q = resolution / step;
    vstd::arithmetic::div_mod::lemma_fundamental_div_mod(resolution, step);
    assert(q * step == resolution) by (nonlinear_arith)
        requires
            resolution == step * q + resolution % step,
            resolution % step == 0,
    ;
    assert(q >= 0) by (nonlinear_arith)
        requires
            q * step == resolution,
            resolution > 0,
            step > 0,
    ;
    let x = start + n * step;
    assert(start + (n + q) * step == resolution * 1 + x) by (nonlinear_arith)
        requires
            q * step == resolution,
            x == start + n * step,
    ;
    vstd::arithmetic::div_mod::lemma_mod_multiples_vanish(1, x, resolution);
}

} // verus!

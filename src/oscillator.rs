//! Oscillators at a fixed frequency, built on the phase accumulator.
use vstd::prelude::*;
use crate::phase::{Phase, phase_after, lemma_phase_after_next, lemma_phase_periodic};
use crate::waveform::{Shape, level, level_of, lemma_level_bounded};

verus! {

/// A phase accumulator advanced by the same step on every sample.
///
/// With `resolution = R * s` parts per period and `step = F * s`, it runs at
/// frequency `F` for sample rate `R`.
pub struct Oscillator {
    phase: Phase,
    step: u32,
    elapsed: Ghost<nat>,
}

impl Oscillator {
    /// The step added to the phase on every sample.
    pub closed spec fn step_size(self) -> nat {
        self.step as nat
    }

    /// How many parts one period is divided into.
    pub closed spec fn den(self) -> nat {
        self.phase.den()
    }

    /// The numerator of the phase at which the next sample is read.
    pub closed spec fn position(self) -> nat {
        self.phase.num()
    }

    /// How many samples have been taken so far.
    pub closed spec fn ticks(self) -> nat {
        self.elapsed@
    }

    /// The phase is the one reached from zero after `ticks` steps.
    pub open spec fn wf(self) -> bool {
        &&& self.den() > 0
        &&& self.position() == phase_after(0, self.step_size() as int, self.den() as int, self.ticks())
    }

    /// An oscillator at phase zero.
    pub fn new(resolution: u32, step: u32) -> (r: Oscillator)
        requires
            resolution > 0,
        ensures
            r.wf(),
            r.den() == resolution,
            r.step_size() == step,
            r.ticks() == 0,
            r.position() == 0,
    {
        let r = Oscillator { phase: Phase::new(resolution), step, elapsed: Ghost(0) };
        assert(0 + 0 * (step as int) == 0);
        assert(0int % (resolution as int) == 0);
        r
    }

    /// The step added to the phase on every sample.
    pub fn step(&self) -> (r: u32)
        ensures
            r == self.step_size(),
    {
        self.step
    }

    /// How many parts one period is divided into.
    pub fn resolution(&self) -> (r: u32)
        ensures
            r == self.den(),
    {
        self.phase.resolution()
    }

    /// The numerator of the phase of the current sample; the phase then moves on.
    pub fn tick(&mut self) -> (r: u32)
        requires
            old(self).wf(),
        ensures
            final(self).wf(),
            r == old(self).position(),
            r == phase_after(0, old(self).step_size() as int, old(self).den() as int, old(self).ticks()),
            r < old(self).den(),
            final(self).den() == old(self).den(),
            final(self).step_size() == old(self).step_size(),
            final(self).ticks() == old(self).ticks() + 1,
    {
        proof {
            lemma_phase_after_next(0, self.step as int, self.phase.den() as int, self.elapsed@);
        }
        let r = self.phase.tick(self.step);
        self.elapsed = Ghost(self.elapsed@ + 1);
        r
    }
}

/// The level of a fixed-frequency `shape` at sample `n`, over `den`.
pub open spec fn level_at(shape: Shape, step: int, den: int, n: nat) -> int {
    level_of(shape, phase_after(0, step, den, n), den)
}

/// A Saw, Square or Triangle wave at a fixed frequency.
pub struct Generator {
    oscillator: Oscillator,
    shape: Shape,
}

impl Generator {
    /// The shape of the wave.
    pub closed spec fn shape_of(self) -> Shape {
        self.shape
    }

    /// The oscillator that drives the wave.
    pub closed spec fn driver(self) -> Oscillator {
        self.oscillator
    }

    /// The oscillator is well formed.
    pub open spec fn wf(self) -> bool {
        self.driver().wf()
    }

    /// A wave of `shape` at phase zero.
    pub fn new(shape: Shape, resolution: u32, step: u32) -> (r: Generator)
        requires
            resolution > 0,
        ensures
            r.wf(),
            r.shape_of() == shape,
            r.driver().den() == resolution,
            r.driver().step_size() == step,
            r.driver().ticks() == 0,
    {
        Generator { oscillator: Oscillator::new(resolution, step), shape }
    }

    /// How many parts one period is divided into; levels are numerators over it.
    pub fn resolution(&self) -> (r: u32)
        ensures
            r == self.driver().den(),
    {
        self.oscillator.resolution()
    }

    /// The shape of the wave.
    pub fn shape(&self) -> (r: Shape)
        ensures
            r == self.shape_of(),
    {
        self.shape
    }

    /// The level of the next sample, over the resolution; the phase then moves on.
    pub fn evaluate(&mut self) -> (r: i64)
        requires
            old(self).wf(),
        ensures
            final(self).wf(),
            r == level_at(
                old(self).shape_of(),
                old(self).driver().step_size() as int,
                old(self).driver().den() as int,
                old(self).driver().ticks(),
            ),
            -(old(self).driver().den() as int) <= r <= old(self).driver().den(),
            final(self).shape_of() == old(self).shape_of(),
            final(self).driver().den() == old(self).driver().den(),
            final(self).driver().step_size() == old(self).driver().step_size(),
            final(self).driver().ticks() == old(self).driver().ticks() + 1,
    {
        let den = self.oscillator.resolution();
        let num = self.oscillator.tick();
        level(self.shape, num, den)
    }
}

/// Every fixed-frequency wave whose frequency divides the sample rate repeats,
/// sample for sample, with a period of `resolution / step` samples.
pub proof fn lemma_level_periodic(shape: Shape, step: int, den: int, n: nat)
    requires
        den > 0,
        step > 0,
        den % step == 0,
    ensures
        level_at(shape, step, den, n + (den / step) as nat) == level_at(shape, step, den, n),
{
    lemma_phase_periodic(0, step, den, n);
}

/// Every fixed-frequency wave stays within `[-1, 1]` at every sample.
pub proof fn lemma_level_at_bounded(shape: Shape, step: int, den: int, n: nat)
    requires
        den > 0,
    ensures
        -den <= level_at(shape, step, den, n) <= den,
{
    lemma_level_bounded(shape, phase_after(0, step, den, n), den);
}

} // verus!

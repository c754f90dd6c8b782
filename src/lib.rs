//! Exact, integer-only core of a small audio synthesis engine.
//!
//! The phase of every oscillator is held as a fraction `numerator / resolution`
//! of one period, so that it wraps exactly and never drifts, however long the
//! synthesis runs. Waveform levels are stated over the same denominator.
//! Around it: the interleaving of a mono stream over output channels, and the
//! window that captures the start of a stream for analysis.

pub mod capture;
pub mod oscillator;
pub mod phase;
pub mod stereo;
pub mod waveform;

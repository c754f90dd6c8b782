//! Waveform shapes, read at a phase `numerator / resolution`.
//!
//! A level `l` stands for the value `l / resolution`, so that every level below
//! is exact.
use vstd::prelude::*;

verus! {

/// The waveforms whose level is a piecewise linear function of the phase.
#[derive(Clone, Copy, Debug, PartialEq, Eq, Structural)]
pub enum Shape {
    /// `2p - 1`: a ramp from -1 up to 1.
    Saw,
    /// `-1` for `p <= 1/2`, else `1`.
    Square,
    /// `4p - 1` for `p <= 1/2`, else `3 - 4p`.
    Triangle,
}

/// The level of `shape` at phase `num / den`, as a numerator over `den`.
pub open spec fn level_of(shape: Shape, num: int, den: int) -> int {
    match shape {
        Shape::Saw => 2 * num - den,
        Shape::Square => if 2 * num <= den {
            -den
        } else {
            den
        },
        Shape::Triangle => if 2 * num <= den {
            4 * num - den
        } else {
            3 * den - 4 * num
        },
    }
}

/// Every shape stays within `[-1, 1]` at every phase in `[0, 1)`.
pub proof fn lemma_level_bounded(shape: Shape, num: int, den: int)
    requires
        0 <= num < den,
    ensures
        -den <= level_of(shape, num, den) <= den,
{
}

/// The level of `shape` at phase `num / den`, as a numerator over `den`.
pub fn level(shape: Shape, num: u32, den: u32) -> (r: i64)
    requires
        num < den,
    ensures
        r == level_of(shape, num as int, den as int),
        -(den as int) <= r <= den,
{
    let n = num as i64;
    let d = den as i64;
    match shape {
        Shape::Saw => 2 * n - d,
        Shape::Square => if 2 * n <= d {
            -d
        } else {
            d
        },
        Shape::Triangle => if 2 * n <= d {
            4 * n - d
        } else {
            3 * d - 4 * n
        },
    }
}

} // verus!

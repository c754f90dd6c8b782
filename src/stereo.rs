//! Spreading a mono stream over interleaved output channels.
use vstd::prelude::*;

verus! {

/// Interleaves `mono` over `channels` channels: frame `f` holds `mono[f]` in each
/// of its `channels` slots, so slot `i` holds `mono[i / channels]`.
pub fn interleave<T: Copy>(mono: &Vec<T>, channels: usize) -> (r: Vec<T>)
    requires
        mono.len() * channels <= usize::MAX,
    ensures
        r.len() == mono.len() * channels,
        forall|i: int| 0 <= i < r.len() ==> #[trigger] r@[i] == mono@[i / channels as int],
{
    let mut r: Vec<T> = Vec::new();
    let mut f: usize = 0;
    while f < mono.len()
        invariant
            f <= mono.len(),
            mono.len() * channels <= usize::MAX,
            r.len() == f * channels,
            forall|i: int| 0 <= i < r.len() ==> #[trigger] r@[i] == mono@[i / channels as int],
        decreases mono.len() - f,
    {
        let sample = mono[f];
        let mut c: usize = 0;
        assert((f + 1) * channels <= mono.len() * channels) by (nonlinear_arith)
            requires
                f < mono.len(),
        ;
        while c < channels
            invariant
                f < mono.len(),
                c <= channels,
                sample == mono@[f as int],
                (f + 1) * channels <= usize::MAX,
                r.len() == f * channels + c,
                forall|i: int| 0 <= i < r.len() ==> #[trigger] r@[i] == mono@[i / channels as int],
            decreases channels - c,
        {
            proof {
                let i = (f * channels + c) as int;
                assert(i / channels as int == f) by (nonlinear_arith)
                    requires
                        i == f * channels + c,
                        c < channels,
                ;
            }
            assert((f * channels + c) + 1 <= (f + 1) * channels) by (nonlinear_arith)
                requires
                    c < channels,
            ;
            r.push(sample);
            c = c + 1;
        }
        assert(f * channels + channels == (f + 1) * channels) by (nonlinear_arith);
        f = f + 1;
    }
    r
}

} // verus!

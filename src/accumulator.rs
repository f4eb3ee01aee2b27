use vstd::prelude::*;

use crate::views;

verus! {

/// The samples of the first channel of the complete frames of interleaved
/// `data`, `channels` samples to a frame.
pub open spec fn first_channel<T>(data: Seq<T>, channels: nat) -> Seq<T>
    recommends
        channels > 0,
{
    Seq::new(data.len() / channels, |i: int| data[i * channels])
}

/// Collects mono samples into windows of a fixed size, handing each window
/// out as soon as it is full and starting the next one empty.
pub struct SampleAccumulator<T> {
    window_size: usize,
    samples: Vec<T>,
}

impl<T> SampleAccumulator<T> {
    #[verifier::type_invariant]
    spec fn partial_window(&self) -> bool {
        &&& self.window_size > 0
        &&& self.samples.len() < self.window_size
    }

    /// The samples of the window being filled.
    pub closed spec fn pending(&self) -> Seq<T> {
        self.samples@
    }

    /// The number of samples in a window.
    pub closed spec fn window(&self) -> nat {
        self.window_size as nat
    }
}

impl<T: Copy> SampleAccumulator<T> {
    /// An accumulator of windows of `window_size` samples, holding none yet.
    pub fn new(window_size: usize) -> (r: Self)
        requires
            window_size > 0,
        ensures
            r.window() == window_size,
            r.pending() == Seq::<T>::empty(),
    {
        SampleAccumulator { window_size, samples: Vec::new() }
    }

    /// Appends one sample; returns the window if that sample filled it.
    pub fn push(&mut self, sample: T) -> (r: Option<Vec<T>>)
        ensures
            final(self).window() == old(self).window(),
            final(self).pending().len() < final(self).window(),
            old(self).pending().len() + 1 == old(self).window() ==> r is Some && r->Some_0@
                == old(self).pending().push(sample) && final(self).pending().len() == 0,
            old(self).pending().len() + 1 < old(self).window() ==> r is None
                && final(self).pending() == old(self).pending().push(sample),
    {
        proof {
            use_type_invariant(&*self);
        }
        let mut filled = Vec::new();
        std::mem::swap(&mut self.samples, &mut filled);
        filled.push(sample);
        if filled.len() >= self.window_size {
            Some(filled)
        } else {
            self.samples = filled;
            None
        }
    }

    /// Takes the first channel of each complete frame of `data` (interleaved,
    /// `channels` samples to a frame) and returns, in order, the windows
    /// those samples completed. The windows together with what stays pending
    /// are exactly the samples held before followed by the new ones.
    pub fn push_frames(&mut self, data: &[T], channels: usize) -> (r: Vec<Vec<T>>)
        requires
            channels > 0,
        ensures
            final(self).window() == old(self).window(),
            final(self).pending().len() < final(self).window(),
            forall|j: int| 0 <= j < r@.len() ==> #[trigger] r@[j]@.len() == final(self).window(),
            views(r@).flatten() + final(self).pending() == old(self).pending()
                + first_channel(data@, channels as nat),
    {
        proof {
            use_type_invariant(&*self);
        }
        let ghost start = self.pending();
        let ghost mono = first_channel(data@, channels as nat);
        let n = data.len();
        let frames = n / channels;
        let mut windows: Vec<Vec<T>> = Vec::new();
        let mut f: usize = 0;
        while f < frames
            invariant
                n == data@.len(),
                mono == first_channel(data@, channels as nat),
                start == old(self).pending(),
                frames == n / channels,
                channels > 0,
                f <= frames,
                self.window() == old(self).window(),
                self.pending().len() < self.window(),
                forall|j: int| 0 <= j < windows@.len() ==> #[trigger] windows@[j]@.len() == self.window(),
                views(windows@).flatten() + self.pending() == start
                    + mono.take(f as int),
            decreases frames - f,
        {
            proof {
                assert(f * channels < frames * channels) by (nonlinear_arith)
                    requires f < frames, channels > 0;
                vstd::arithmetic::div_mod::lemma_fundamental_div_mod(n as int, channels as int);
                vstd::arithmetic::div_mod::lemma_mod_pos_bound(n as int, channels as int);
                vstd::arithmetic::mul::lemma_mul_is_commutative(frames as int, channels as int);
                assert(frames * channels <= data@.len());
            }
            let sample = data[f * channels];
            let ghost before = views(windows@);
            let ghost pend = self.pending();
            match self.push(sample) {
                Some(w) => {
                    windows.push(w);
                    proof {
                        assert(views(windows@) =~= before.push(pend.push(sample)));
                        assert(before.push(pend.push(sample)) =~= before + seq![pend.push(sample)]);
                        vstd::seq_lib::lemma_flatten_concat(before, seq![pend.push(sample)]);
                        assert(seq![pend.push(sample)].flatten() =~= pend.push(sample)) by {
                            reveal_with_fuel(Seq::flatten, 2);
                        }
                        assert(self.pending() =~= Seq::<T>::empty());
                    }
                },
                None => {
                    assert(views(windows@) =~= before);
                },
            }
            assert(views(windows@).flatten() + self.pending() =~= before.flatten()
                + pend.push(sample));
            proof {
                assert(mono.len() == frames);
                assert(mono[f as int] == sample);
                assert(mono.take(f + 1) =~= mono.take(f as int).push(sample));
                assert(before.flatten() + pend.push(sample) =~= (before.flatten() + pend).push(
                    sample,
                ));
                assert((start + mono.take(f as int)).push(sample) =~= start + mono.take(f + 1));
            }
            f = f + 1;
            proof {
                assert(views(windows@).flatten() + self.pending() =~= start
                    + mono.take(f as int));
            }
        }
        proof {
            assert(mono.take(f as int) =~= mono);
        }
        windows
    }

    /// The number of samples in a window.
    pub fn window_size(&self) -> (r: usize)
        ensures
            r == self.window(),
    {
        self.window_size
    }
}

} // verus!

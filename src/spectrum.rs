use vstd::prelude::*;

verus! {

/// The number of bins of a `window`-sample transform of real input that
/// carry information: the others mirror them.
pub open spec fn useful_bins(window: nat) -> nat {
    window / 2 + 1
}

/// The length of the series that keeps every `d`-th of `bins` bins, from the
/// first.
pub open spec fn decimated_len(bins: nat, d: nat) -> nat
    recommends
        d > 0,
{
    ((bins + d - 1) / d as int) as nat
}

/// Whether bin `i` of a `window`-sample transform at `sample_rate` Hz lies at
/// or below `cutoff_hz`: its frequency `i * sample_rate / window` is compared
/// exactly.
pub open spec fn bin_within(i: nat, window: nat, sample_rate: nat, cutoff_hz: nat) -> bool {
    i * sample_rate <= cutoff_hz * window
}

/// The index bounds of one harmonic-product-spectrum pass over a window.
///
/// `bins` bins carry information; the summed curve is `hps_len` long, the
/// shortest of the series decimated by 2, 3 and 4; the first
/// `display_bins` bins lie at or below the display cutoff.
#[derive(Clone, Copy, Debug, PartialEq, Eq, Structural)]
pub struct SpectrumLayout {
    pub window: usize,
    pub bins: usize,
    pub hps_len: usize,
    pub display_bins: usize,
}

/// The smallest decimation factor of the product spectrum.
pub const MIN_DECIMATION: usize = 2;

/// The largest decimation factor of the product spectrum.
pub const MAX_DECIMATION: usize = 4;

/// A decimated series of `bins` bins by `d` reads only bins in range.
proof fn lemma_decimated_index(b: nat, d: nat, i: nat)
    requires
        d > 0,
        i < decimated_len(b, d),
    ensures
        i * d < b,
{
    let q = decimated_len(b, d);
    vstd::arithmetic::div_mod::lemma_fundamental_div_mod((b + d - 1) as int, d as int);
    vstd::arithmetic::div_mod::lemma_mod_pos_bound((b + d - 1) as int, d as int);
    assert(i * d < b) by (nonlinear_arith)
        requires
            b + d - 1 == d * q + (b + d - 1) % (d as int),
            (b + d - 1) % (d as int) >= 0,
            i + 1 <= q,
            d > 0,
    ;
}

/// Bins up to `cutoff * window / sample_rate`, rounded down, lie within the
/// cutoff, and no other.
proof fn lemma_cutoff_bin(i: nat, window: nat, sample_rate: nat, cutoff_hz: nat)
    requires
        sample_rate > 0,
    ensures
        bin_within(i, window, sample_rate, cutoff_hz) <==> i <= cutoff_hz * window / sample_rate,
{
    let p: int = (cutoff_hz * window) as int;
    let s: int = sample_rate as int;
    let last: int = p / s;
    vstd::arithmetic::div_mod::lemma_fundamental_div_mod(p, s);
    vstd::arithmetic::div_mod::lemma_mod_pos_bound(p, s);
    if i <= last {
        assert(i * s <= p) by (nonlinear_arith)
            requires
                p == s * last + p % s,
                p % s >= 0,
                s > 0,
                i <= last,
        ;
    } else {
        assert(i * s > p) by (nonlinear_arith)
            requires
                p == s * last + p % s,
                p % s < s,
                i >= last + 1,
        ;
    }
}

impl SpectrumLayout {
    /// Whether this layout is the one of a `window`-sample transform at
    /// `sample_rate` Hz with the display cut at `cutoff_hz`.
    pub open spec fn describes(self, window: nat, sample_rate: nat, cutoff_hz: nat) -> bool {
        &&& self.window == window
        &&& self.bins == useful_bins(window)
        &&& exists|d: nat|
            MIN_DECIMATION <= d <= MAX_DECIMATION && self.hps_len == #[trigger] decimated_len(
                self.bins as nat,
                d,
            )
        &&& forall|d: nat|
            MIN_DECIMATION <= d <= MAX_DECIMATION ==> self.hps_len <= #[trigger] decimated_len(
                self.bins as nat,
                d,
            )
        &&& self.display_bins <= self.bins
        &&& forall|i: nat| i < self.display_bins ==> #[trigger] bin_within(i, window, sample_rate, cutoff_hz)
        &&& forall|i: nat|
            self.display_bins <= i < self.bins ==> !#[trigger] bin_within(
                i,
                window,
                sample_rate,
                cutoff_hz,
            )
    }

    /// The layout of a `window`-sample transform at `sample_rate` Hz, with
    /// the display cut at `cutoff_hz`. Every index the pass reads is in
    /// range: the decimated series at every summed index, and the two
    /// neighbours of any summed index but the first.
    pub fn new(window: usize, sample_rate: u32, cutoff_hz: u32) -> (r: SpectrumLayout)
        requires
            window > 0,
        ensures
            r.describes(window as nat, sample_rate as nat, cutoff_hz as nat),
            1 <= r.hps_len <= r.bins <= window,
            forall|i: nat, d: nat|
                i < r.hps_len && MIN_DECIMATION <= d <= MAX_DECIMATION ==> #[trigger] (i * d)
                    < r.bins,
            r.bins >= 2 ==> r.hps_len < r.bins,
    {
        let bins = window / 2 + 1;
        let mut hps_len = usize::MAX;
        let mut d: usize = MIN_DECIMATION;
        while d <= MAX_DECIMATION
            invariant
                MIN_DECIMATION <= d <= MAX_DECIMATION + 1,
                bins == useful_bins(window as nat),
                d == MIN_DECIMATION ==> hps_len == usize::MAX,
                d > MIN_DECIMATION ==> exists|e: nat|
                    MIN_DECIMATION <= e < d && hps_len == #[trigger] decimated_len(bins as nat, e),
                forall|e: nat|
                    MIN_DECIMATION <= e < d ==> hps_len <= #[trigger] decimated_len(bins as nat, e),
            decreases MAX_DECIMATION + 1 - d,
        {
            let len = (bins + d - 1) / d;
            assert(len == decimated_len(bins as nat, d as nat));
            if len < hps_len {
                hps_len = len;
            }
            d = d + 1;
        }
        assert(hps_len <= decimated_len(bins as nat, 2));
        assert forall|i: nat, d: nat|
            i < hps_len && MIN_DECIMATION <= d <= MAX_DECIMATION implies #[trigger] (i * d) < bins by {
            assert(hps_len <= decimated_len(bins as nat, d));
            lemma_decimated_index(bins as nat, d, i);
        }
        proof {
            let e = choose|e: nat|
                MIN_DECIMATION <= e <= MAX_DECIMATION && hps_len == #[trigger] decimated_len(
                    bins as nat,
                    e,
                );
            assert(decimated_len(bins as nat, e) >= 1) by (nonlinear_arith)
                requires
                    e >= 2,
                    bins >= 1,
                    decimated_len(bins as nat, e) == (bins + e - 1) / (e as int),
            ;
        }
        let display_bins = if sample_rate == 0 {
            bins
        } else {
            assert((cutoff_hz as u128) * (window as u128) <= 0xffff_ffffu128 * 0xffff_ffff_ffff_ffffu128)
                by (nonlinear_arith)
                requires
                    cutoff_hz <= 0xffff_ffffu32,
                    window <= 0xffff_ffff_ffff_ffffu64,
            ;
            let last = (cutoff_hz as u128) * (window as u128) / (sample_rate as u128);
            assert forall|i: nat| #![trigger bin_within(i, window as nat, sample_rate as nat, cutoff_hz as nat)]
                true implies (bin_within(i, window as nat, sample_rate as nat, cutoff_hz as nat) <==> i <= last) by {
                lemma_cutoff_bin(i, window as nat, sample_rate as nat, cutoff_hz as nat);
            }
            if last < bins as u128 {
                (last + 1) as usize
            } else {
                bins
            }
        };
        SpectrumLayout { window, bins, hps_len, display_bins }
    }
}

/// The position of the first largest key of `keys`.
///
/// The analysis selects its peak bin and its coarse fundamental bin with it,
/// over keys that order as the values they stand for.
pub fn first_max_index(keys: &[u32]) -> (r: usize)
    requires
        keys@.len() > 0,
    ensures
        r < keys@.len(),
        forall|i: int| 0 <= i < keys@.len() ==> keys@[i] <= keys@[r as int],
        forall|i: int| 0 <= i < r ==> keys@[i] < keys@[r as int],
{
    let mut best: usize = 0;
    let mut i: usize = 1;
    while i < keys.len()
        invariant
            keys@.len() > 0,
            best < i <= keys@.len(),
            forall|j: int| 0 <= j < i ==> keys@[j] <= keys@[best as int],
            forall|j: int| 0 <= j < best ==> keys@[j] < keys@[best as int],
        decreases keys.len() - i,
    {
        if keys[i] > keys[best] {
            best = i;
        }
        i = i + 1;
    }
    best
}

} // verus!

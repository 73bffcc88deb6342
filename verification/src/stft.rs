//! Short-time spectral analysis and synthesis: framing with reflected
//! edges, layout of the complex spectrogram, and the overlap-add spans of
//! the inverse.
//!
//! The transform of a frame itself (window taper and FFT) is a
//! floating-point kernel that runs outside this library. What is verified
//! here is everything that places a sample: which signal position each
//! frame entry reads (including the exact reflection rule at both edges),
//! which plane, row and column of the spectrogram each FFT bin is stored
//! in, how missing high-frequency rows are restored on the way back, and
//! which output span each synthesis frame accumulates into.

use vstd::prelude::*;

verus! {

use vstd::arithmetic::div_mod::lemma_fundamental_div_mod_converse;

/// Number of frequency bins a real FFT of size `n_fft` produces.
pub open spec fn spec_freq_bins(n_fft: int) -> int {
    n_fft / 2 + 1
}

/// Number of analysis frames over a signal of length `time`: one frame is
/// centred at every multiple of the hop from `0` to `time` inclusive.
pub open spec fn spec_frame_count(time: int, hop: int) -> int {
    time / hop + 1
}

/// The signal position a virtual position `pos` reads through edge
/// reflection: positions left of the signal mirror around sample 0
/// (excluding sample 0 itself), positions right of it mirror around the
/// last sample (excluding that sample).
pub open spec fn reflect_index(pos: int, time: int) -> int {
    if pos < 0 {
        -pos
    } else if pos >= time {
        2 * time - pos - 2
    } else {
        pos
    }
}

/// The reflection rule lands inside the signal whenever the overhang on
/// either side is at most `time - 1`.
pub proof fn lemma_reflect_in_range(pos: int, time: int)
    requires
        1 <= time,
        -(time - 1) <= pos <= 2 * time - 2,
    ensures
        0 <= reflect_index(pos, time) < time,
{
}

/// Whether frames of size `n_fft` can be cut from a signal of length
/// `time`: the largest overhang past either edge, `n_fft - n_fft/2`, must
/// stay below `time` so that one reflection suffices. (`time` is also kept
/// small enough that no index computation can overflow.)
pub open spec fn spec_can_frame(n_fft: int, time: int) -> bool {
    &&& 1 <= n_fft
    &&& n_fft - n_fft / 2 < time
    &&& time <= usize::MAX as int / 4
}

/// Runtime check for `spec_can_frame`.
pub fn can_frame(n_fft: usize, time: usize) -> (r: bool)
    ensures
        r == spec_can_frame(n_fft as int, time as int),
{
    1 <= n_fft && n_fft - n_fft / 2 < time && time <= usize::MAX / 4
}

/// Cuts the analysis frame centred at `center`: entry `j` holds the signal
/// sample at the reflection of virtual position `center - n_fft/2 + j`.
pub fn extract_frame<T: Copy>(signal: &Vec<T>, center: usize, n_fft: usize) -> (frame: Vec<T>)
    requires
        spec_can_frame(n_fft as int, signal@.len() as int),
        center <= signal@.len(),
    ensures
        frame@.len() == n_fft,
        forall|j: int|
            0 <= j < n_fft ==> frame@[j] == signal@[reflect_index(
                center - n_fft / 2 + j,
                signal@.len() as int,
            )],
{
    let time = signal.len();
    let left = n_fft / 2;
    let mut frame: Vec<T> = Vec::new();
    let mut j: usize = 0;
    while j < n_fft
        invariant
            j <= n_fft,
            left == n_fft / 2,
            time == signal@.len(),
            spec_can_frame(n_fft as int, time as int),
            center <= time,
            frame@.len() == j,
            forall|k: int|
                0 <= k < j ==> frame@[k] == signal@[reflect_index(
                    center - n_fft / 2 + k,
                    time as int,
                )],
        decreases n_fft - j,
    {
        let idx: usize = if center + j < left {
            left - (center + j)
        } else {
            let pos = center + j - left;
            if pos >= time {
                2 * time - pos - 2
            } else {
                pos
            }
        };
        assert(idx == reflect_index(center - n_fft / 2 + j, time as int));
        assert(0 <= idx < time);
        frame.push(signal[idx]);
        j += 1;
    }
    frame
}

/// Cuts every analysis frame of a signal: frame `f` is centred at
/// `f * hop`, and the centres run from `0` to the signal length inclusive,
/// so there are `time/hop + 1` frames.
pub fn frame_signal<T: Copy>(signal: &Vec<T>, n_fft: usize, hop: usize) -> (frames: Vec<Vec<T>>)
    requires
        spec_can_frame(n_fft as int, signal@.len() as int),
        1 <= hop,
        signal@.len() + hop <= usize::MAX,
    ensures
        frames@.len() == spec_frame_count(signal@.len() as int, hop as int),
        forall|f: int|
            0 <= f < frames@.len() ==> (#[trigger] frames@[f])@.len() == n_fft,
        forall|f: int, j: int|
            0 <= f < frames@.len() && 0 <= j < n_fft ==> frames@[f]@[j] == signal@[reflect_index(
                f * hop - n_fft / 2 + j,
                signal@.len() as int,
            )],
{
    let time = signal.len();
    let mut frames: Vec<Vec<T>> = Vec::new();
    let mut center: usize = 0;
    proof {
        assert(frames@.len() * hop == 0) by (nonlinear_arith)
            requires
                frames@.len() == 0,
        ;
    }
    while center <= time
        invariant
            spec_can_frame(n_fft as int, time as int),
            1 <= hop,
            time == signal@.len(),
            time + hop <= usize::MAX,
            center == frames@.len() * hop,
            center <= time + hop,
            frames@.len() >= 1 ==> (frames@.len() - 1) * hop <= time,
            forall|f: int|
                0 <= f < frames@.len() ==> (#[trigger] frames@[f])@.len() == n_fft,
            forall|f: int, j: int|
                0 <= f < frames@.len() && 0 <= j < n_fft ==> frames@[f]@[j] == signal@[reflect_index(
                    f * hop - n_fft / 2 + j,
                    time as int,
                )],
        decreases time + hop - center,
    {
        let frame = extract_frame(signal, center, n_fft);
        frames.push(frame);
        proof {
            let k = frames@.len() as int;
            assert(k * hop == (k - 1) * hop + hop) by (nonlinear_arith);
        }
        center += hop;
    }
    proof {
        let k = frames@.len() as int;
        let h = hop as int;
        let t = time as int;
        assert(k >= 1) by (nonlinear_arith)
            requires
                k >= 0,
                h >= 1,
                k * h > t,
                t >= 0,
        ;
        assert(k * h == (k - 1) * h + h) by (nonlinear_arith);
        assert(0 <= t - (k - 1) * h < h);
        lemma_fundamental_div_mod_converse(t, h, k - 1, t - (k - 1) * h);
        assert(t / h == k - 1);
    }
    frames
}

/// Lays one plane of the spectrogram: `spectra[f]` holds one real (or one
/// imaginary) FFT output of frame `f`, and the plane stores bin `b` of
/// frame `f` at `plane[b][f]`, keeping only the `keep` lowest-frequency
/// bins.
pub fn assemble_plane<T: Copy>(spectra: &Vec<Vec<T>>, bins: usize, keep: usize) -> (plane: Vec<
    Vec<T>,
>)
    requires
        keep <= bins,
        forall|f: int| 0 <= f < spectra@.len() ==> (#[trigger] spectra@[f])@.len() == bins,
    ensures
        plane@.len() == keep,
        forall|b: int| 0 <= b < keep ==> (#[trigger] plane@[b])@.len() == spectra@.len(),
        forall|b: int, f: int|
            0 <= b < keep && 0 <= f < spectra@.len() ==> plane@[b]@[f] == spectra@[f]@[b],
{
    let frames = spectra.len();
    let mut plane: Vec<Vec<T>> = Vec::new();
    let mut b: usize = 0;
    while b < keep
        invariant
            b <= keep,
            keep <= bins,
            frames == spectra@.len(),
            forall|f: int| 0 <= f < frames ==> (#[trigger] spectra@[f])@.len() == bins,
            plane@.len() == b,
            forall|b2: int| 0 <= b2 < b ==> (#[trigger] plane@[b2])@.len() == frames,
            forall|b2: int, f: int|
                0 <= b2 < b && 0 <= f < frames ==> plane@[b2]@[f] == spectra@[f]@[b2],
        decreases keep - b,
    {
        let mut row: Vec<T> = Vec::new();
        let mut f: usize = 0;
        while f < frames
            invariant
                f <= frames,
                b < keep,
                keep <= bins,
                frames == spectra@.len(),
                forall|f2: int| 0 <= f2 < frames ==> (#[trigger] spectra@[f2])@.len() == bins,
                row@.len() == f,
                forall|f2: int| 0 <= f2 < f ==> row@[f2] == spectra@[f2]@[b as int],
            decreases frames - f,
        {
            row.push(spectra[f][b]);
            f += 1;
        }
        plane.push(row);
        b += 1;
    }
    plane
}

/// Rebuilds the full complex spectrum of one frame column for the
/// inverse transform: bins beyond the rows actually stored are restored
/// as `zero` (the rows truncation discarded), and the imaginary part of
/// the first bin and of the last bin is forced to `zero`, as both must be
/// real for a real-output inverse FFT.
pub fn spectrum_column<T: Copy>(
    re_plane: &Vec<Vec<T>>,
    im_plane: &Vec<Vec<T>>,
    frame: usize,
    bins_full: usize,
    zero: T,
) -> (cols: (Vec<T>, Vec<T>))
    requires
        1 <= bins_full,
        re_plane@.len() == im_plane@.len(),
        re_plane@.len() <= bins_full,
        forall|b: int| 0 <= b < re_plane@.len() ==> frame < (#[trigger] re_plane@[b])@.len(),
        forall|b: int| 0 <= b < im_plane@.len() ==> frame < (#[trigger] im_plane@[b])@.len(),
    ensures
        cols.0@.len() == bins_full,
        cols.1@.len() == bins_full,
        forall|b: int|
            0 <= b < bins_full ==> cols.0@[b] == if b < re_plane@.len() {
                re_plane@[b]@[frame as int]
            } else {
                zero
            },
        forall|b: int|
            0 <= b < bins_full ==> cols.1@[b] == if b == 0 || b == bins_full - 1 {
                zero
            } else if b < im_plane@.len() {
                im_plane@[b]@[frame as int]
            } else {
                zero
            },
{
    let rows = re_plane.len();
    let mut re: Vec<T> = Vec::new();
    let mut im: Vec<T> = Vec::new();
    let mut b: usize = 0;
    while b < bins_full
        invariant
            b <= bins_full,
            1 <= bins_full,
            rows == re_plane@.len(),
            rows == im_plane@.len(),
            rows <= bins_full,
            forall|b2: int| 0 <= b2 < rows ==> frame < (#[trigger] re_plane@[b2])@.len(),
            forall|b2: int| 0 <= b2 < rows ==> frame < (#[trigger] im_plane@[b2])@.len(),
            re@.len() == b,
            im@.len() == b,
            forall|b2: int|
                0 <= b2 < b ==> re@[b2] == if b2 < rows {
                    re_plane@[b2]@[frame as int]
                } else {
                    zero
                },
            forall|b2: int|
                0 <= b2 < b ==> im@[b2] == if b2 == 0 || b2 == bins_full - 1 {
                    zero
                } else if b2 < rows {
                    im_plane@[b2]@[frame as int]
                } else {
                    zero
                },
        decreases bins_full - b,
    {
        if b < rows {
            re.push(re_plane[b][frame]);
        } else {
            re.push(zero);
        }
        if b == 0 || b == bins_full - 1 {
            im.push(zero);
        } else if b < rows {
            im.push(im_plane[b][frame]);
        } else {
            im.push(zero);
        }
        b += 1;
    }
    (re, im)
}

/// Length of the signal the inverse transform reconstructs from `frames`
/// frame columns: the span between the first and the last frame centre.
pub open spec fn spec_istft_length(frames: int, hop: int) -> int {
    (frames - 1) * hop
}

/// Runtime form of `spec_istft_length`.
pub fn istft_length(frames: usize, hop: usize) -> (r: usize)
    requires
        1 <= frames,
        (frames - 1) * hop <= usize::MAX,
    ensures
        r == spec_istft_length(frames as int, hop as int),
{
    (frames - 1) * hop
}

/// First frame entry the synthesis step keeps: entries before it would
/// land left of the output.
pub open spec fn spec_ola_left(center: int, n_fft: int) -> int {
    if center < n_fft / 2 {
        n_fft / 2 - center
    } else {
        0
    }
}

/// One past the last frame entry the synthesis step keeps: entries from
/// it on would land right of the output.
pub open spec fn spec_ola_right(center: int, n_fft: int, length: int) -> int {
    if center + n_fft >= length + n_fft / 2 + 1 {
        length + n_fft / 2 - center
    } else {
        n_fft
    }
}

/// The entries of the synthesis frame centred at `center` that fall into
/// the output of length `length`: entry `i`, for `i` in `[left, right)`,
/// accumulates into output position `center + i - n_fft/2`, and every
/// position so reached lies inside the output.
pub fn ola_span(center: usize, n_fft: usize, length: usize) -> (span: (usize, usize))
    requires
        center <= length,
        length + n_fft + 1 <= usize::MAX,
    ensures
        span.0 == spec_ola_left(center as int, n_fft as int),
        span.1 == spec_ola_right(center as int, n_fft as int, length as int),
        span.0 <= span.1 <= n_fft,
        span.0 < span.1 ==> 0 <= center - n_fft / 2 + span.0,
        span.0 < span.1 ==> center - n_fft / 2 + span.1 <= length,
{
    let half = n_fft / 2;
    let left = if center < half {
        half - center
    } else {
        0
    };
    let right = if center + n_fft >= length + half + 1 {
        length + half - center
    } else {
        n_fft
    };
    (left, right)
}

/// Configuration of the spectral transform: FFT size, analysis hop, and
/// the number of low-frequency rows kept after truncation.
pub struct Stft {
    pub n_fft: usize,
    pub hop_length: usize,
    pub dim_f: usize,
}

impl Stft {
    /// The configuration a transform must satisfy before any frame can be
    /// cut: a positive hop and an FFT over at least two samples.
    pub open spec fn wf(self) -> bool {
        &&& 1 <= self.hop_length
        &&& 2 <= self.n_fft
    }

    pub fn new(n_fft: usize, hop_length: usize, dim_f: usize) -> (r: Self)
        ensures
            r.n_fft == n_fft,
            r.hop_length == hop_length,
            r.dim_f == dim_f,
    {
        Self { n_fft, hop_length, dim_f }
    }

    /// Bins per FFT frame before truncation, `n_fft/2 + 1`.
    pub fn freq_bins(&self) -> (r: usize)
        requires
            self.n_fft < usize::MAX,
        ensures
            r == spec_freq_bins(self.n_fft as int),
    {
        self.n_fft / 2 + 1
    }

    /// Rows retained in the forward output: all bins, capped at `dim_f`.
    pub open spec fn spec_keep_bins(self) -> int {
        if spec_freq_bins(self.n_fft as int) > self.dim_f {
            self.dim_f as int
        } else {
            spec_freq_bins(self.n_fft as int)
        }
    }

    /// Rows retained in the forward output: all bins, capped at `dim_f`.
    /// Truncation discards the highest-frequency rows only.
    pub fn keep_bins(&self) -> (r: usize)
        requires
            self.n_fft < usize::MAX,
        ensures
            r == self.spec_keep_bins(),
    {
        let bins = self.freq_bins();
        if bins > self.dim_f {
            self.dim_f
        } else {
            bins
        }
    }

    /// Frames the forward transform cuts from a signal of length `time`.
    pub fn frame_count(&self, time: usize) -> (r: usize)
        requires
            self.wf(),
            time < usize::MAX,
        ensures
            r == spec_frame_count(time as int, self.hop_length as int),
    {
        time / self.hop_length + 1
    }

    /// Cuts every analysis frame of one signal row; see `frame_signal`.
    pub fn frames<T: Copy>(&self, signal: &Vec<T>) -> (frames: Vec<Vec<T>>)
        requires
            self.wf(),
            spec_can_frame(self.n_fft as int, signal@.len() as int),
            signal@.len() + self.hop_length <= usize::MAX,
        ensures
            frames@.len() == spec_frame_count(signal@.len() as int, self.hop_length as int),
            forall|f: int|
                0 <= f < frames@.len() ==> (#[trigger] frames@[f])@.len() == self.n_fft,
            forall|f: int, j: int|
                0 <= f < frames@.len() && 0 <= j < self.n_fft ==> frames@[f]@[j]
                    == signal@[reflect_index(
                    f * self.hop_length - self.n_fft / 2 + j,
                    signal@.len() as int,
                )],
    {
        frame_signal(signal, self.n_fft, self.hop_length)
    }

    /// Lays out the spectrogram from the per-row FFT outputs:
    /// `re_rows[r][f]` and `im_rows[r][f]` hold the real and imaginary
    /// bins of frame `f` of signal row `r`. Row `r` contributes its
    /// real-part plane at channel `2r` and its imaginary-part plane at
    /// channel `2r + 1`; each plane stores bin `b` of frame `f` at
    /// `[b][f]` and keeps only the lowest `spec_keep_bins` rows.
    pub fn assemble<T: Copy>(
        &self,
        re_rows: &Vec<Vec<Vec<T>>>,
        im_rows: &Vec<Vec<Vec<T>>>,
    ) -> (planes: Vec<Vec<Vec<T>>>)
        requires
            self.n_fft < usize::MAX,
            re_rows@.len() == im_rows@.len(),
            re_rows@.len() <= usize::MAX / 2,
            forall|r: int|
                0 <= r < re_rows@.len() ==> (#[trigger] re_rows@[r])@.len()
                    == im_rows@[r]@.len(),
            forall|r: int, f: int|
                0 <= r < re_rows@.len() && 0 <= f < re_rows@[r]@.len()
                    ==> (#[trigger] re_rows@[r]@[f])@.len() == spec_freq_bins(self.n_fft as int),
            forall|r: int, f: int|
                0 <= r < im_rows@.len() && 0 <= f < im_rows@[r]@.len()
                    ==> (#[trigger] im_rows@[r]@[f])@.len() == spec_freq_bins(self.n_fft as int),
        ensures
            planes@.len() == 2 * re_rows@.len(),
            forall|p: int|
                0 <= p < planes@.len() ==> (#[trigger] planes@[p])@.len()
                    == self.spec_keep_bins(),
            forall|r: int, b: int, f: int|
                0 <= r < re_rows@.len() && 0 <= b < self.spec_keep_bins() && 0 <= f
                    < re_rows@[r]@.len() ==> planes@[2 * r]@[b]@[f] == re_rows@[r]@[f]@[b],
            forall|r: int, b: int, f: int|
                0 <= r < im_rows@.len() && 0 <= b < self.spec_keep_bins() && 0 <= f
                    < im_rows@[r]@.len() ==> planes@[2 * r + 1]@[b]@[f] == im_rows@[r]@[f]@[b],
            forall|r: int, b: int|
                0 <= r < re_rows@.len() && 0 <= b < self.spec_keep_bins()
                    ==> (#[trigger] planes@[2 * r]@[b])@.len() == re_rows@[r]@.len()
                    && (#[trigger] planes@[2 * r + 1]@[b])@.len() == im_rows@[r]@.len(),
    {
        let bins = self.freq_bins();
        let keep = self.keep_bins();
        let rows = re_rows.len();
        let mut planes: Vec<Vec<Vec<T>>> = Vec::new();
        let mut r: usize = 0;
        while r < rows
            invariant
                r <= rows,
                rows == re_rows@.len(),
                rows == im_rows@.len(),
                rows <= usize::MAX / 2,
                self.n_fft < usize::MAX,
                bins == spec_freq_bins(self.n_fft as int),
                keep == self.spec_keep_bins(),
                keep <= bins,
                forall|r2: int|
                    0 <= r2 < rows ==> (#[trigger] re_rows@[r2])@.len() == im_rows@[r2]@.len(),
                forall|r2: int, f: int|
                    0 <= r2 < rows && 0 <= f < re_rows@[r2]@.len()
                        ==> (#[trigger] re_rows@[r2]@[f])@.len() == bins,
                forall|r2: int, f: int|
                    0 <= r2 < rows && 0 <= f < im_rows@[r2]@.len()
                        ==> (#[trigger] im_rows@[r2]@[f])@.len() == bins,
                planes@.len() == 2 * r,
                forall|p: int|
                    0 <= p < planes@.len() ==> (#[trigger] planes@[p])@.len() == keep,
                forall|p: int, b: int|
                    0 <= p < planes@.len() && 0 <= b < keep ==> (#[trigger] planes@[p]@[b])@.len()
                        == (if p % 2 == 0 {
                        re_rows@[p / 2]@.len()
                    } else {
                        im_rows@[p / 2]@.len()
                    }),
                forall|p: int, b: int, f: int|
                    0 <= p < planes@.len() && 0 <= b < keep && 0 <= f < planes@[p]@[b]@.len()
                        ==> (#[trigger] planes@[p]@[b]@[f]) == (if p % 2 == 0 {
                        re_rows@[p / 2]@[f]@[b]
                    } else {
                        im_rows@[p / 2]@[f]@[b]
                    }),
            decreases rows - r,
        {
            let re_plane = assemble_plane(&re_rows[r], bins, keep);
            let im_plane = assemble_plane(&im_rows[r], bins, keep);
            let ghost rpv = re_plane@;
            let ghost ipv = im_plane@;
            planes.push(re_plane);
            planes.push(im_plane);
            proof {
                let ri = r as int;
                assert(planes@[2 * ri]@ == rpv);
                assert(planes@[2 * ri + 1]@ == ipv);
            }
            r += 1;
        }
        planes
    }
}

} // verus!

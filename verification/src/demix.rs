//! The chunked separation driver: padding of the mixture, the schedule of
//! overlapping chunks, the low-bin notch, and the final trim.
//!
//! A mixture is padded with a `trim`-sample zero margin on the left and
//! enough zeros on the right that the last chunk start falls on a step
//! boundary; chunks of `chunk_size` samples are then cut every `step`
//! samples, run through the spectral transform and the external predictor,
//! cross-faded with a symmetric taper, and accumulated into a result and a
//! divider buffer. Everything that picks an index is verified here; the
//! floating-point accumulation itself runs outside the library against
//! these contracts.

use vstd::prelude::*;

verus! {

use vstd::arithmetic::div_mod::{
    lemma_fundamental_div_mod,
    lemma_fundamental_div_mod_converse,
    lemma_div_is_ordered,
    lemma_div_pos_is_pos,
    lemma_mod_division_less_than_divisor,
    lemma_mod_bound,
};

/// Number of lowest-frequency spectrogram rows the separator blanks
/// before every predictor call.
pub const LOW_BIN_NOTCH: usize = 3;

/// Implicit analysis hop of the chunk schedule: a chunk spans
/// `1024 * (segment_size - 1)` samples in every preset.
pub const SEGMENT_HOP: usize = 1024;

/// One chunk of the padded mixture: samples `start .. end`.
#[derive(Clone, Copy, PartialEq, Eq, Structural)]
pub struct Chunk {
    pub start: usize,
    pub end: usize,
}

/// The two integers that determine a separation run: the FFT size of the
/// spectral transform and the model's segment count.
#[derive(Clone, Copy, PartialEq, Eq, Structural)]
pub struct DemixParams {
    pub n_fft: usize,
    pub segment_size: usize,
}

impl DemixParams {
    /// A runnable configuration: chunks longer than the FFT (so the step
    /// is positive) and short enough that no length computation can
    /// overflow.
    pub open spec fn wf(self) -> bool {
        &&& 2 <= self.n_fft
        &&& 2 <= self.segment_size
        &&& SEGMENT_HOP * (self.segment_size - 1) <= usize::MAX
        &&& self.n_fft < SEGMENT_HOP * (self.segment_size - 1)
    }

    /// Margin of zeros glued to the left of the mixture, and cut away
    /// again (with its right counterpart) from the final output.
    pub open spec fn spec_trim(self) -> int {
        self.n_fft as int / 2
    }

    /// Samples per chunk.
    pub open spec fn spec_chunk_size(self) -> int {
        SEGMENT_HOP * (self.segment_size - 1)
    }

    /// Fresh samples each chunk contributes past the margins.
    pub open spec fn spec_gen_size(self) -> int {
        self.spec_chunk_size() - 2 * self.spec_trim()
    }

    /// Distance between consecutive chunk starts.
    pub open spec fn spec_step(self) -> int {
        self.spec_chunk_size() - self.n_fft
    }

    pub fn new(n_fft: usize, segment_size: usize) -> (r: Self)
        ensures
            r.n_fft == n_fft,
            r.segment_size == segment_size,
    {
        Self { n_fft, segment_size }
    }

    /// Runtime check for `wf`.
    pub fn check(&self) -> (r: bool)
        ensures
            r == self.wf(),
    {
        2 <= self.n_fft && 2 <= self.segment_size && self.segment_size - 1
            <= usize::MAX / SEGMENT_HOP && self.n_fft < SEGMENT_HOP * (self.segment_size - 1)
    }

    pub fn trim(&self) -> (r: usize)
        requires
            self.wf(),
        ensures
            r == self.spec_trim(),
    {
        self.n_fft / 2
    }

    pub fn chunk_size(&self) -> (r: usize)
        requires
            self.wf(),
        ensures
            r == self.spec_chunk_size(),
    {
        SEGMENT_HOP * (self.segment_size - 1)
    }

    pub fn gen_size(&self) -> (r: usize)
        requires
            self.wf(),
        ensures
            r == self.spec_gen_size(),
            1 <= r,
    {
        self.chunk_size() - 2 * self.trim()
    }

    pub fn step(&self) -> (r: usize)
        requires
            self.wf(),
        ensures
            r == self.spec_step(),
            1 <= r,
    {
        self.chunk_size() - self.n_fft
    }

    /// Whether a mixture of length `length` can be scheduled without any
    /// length computation overflowing.
    pub open spec fn spec_fits(self, length: int) -> bool {
        length + 2 * self.spec_chunk_size() <= usize::MAX
    }

    /// Runtime check for `spec_fits`.
    pub fn fits(&self, length: usize) -> (r: bool)
        requires
            self.wf(),
        ensures
            r == self.spec_fits(length as int),
    {
        let chunk = self.chunk_size();
        chunk <= usize::MAX / 2 && length <= usize::MAX - 2 * chunk
    }

    /// Zeros appended to the right of the mixture. The count is never
    /// zero: even a mixture that already ends on a generation boundary
    /// receives a full extra margin.
    pub fn compute_pad(&self, length: usize) -> (pad: usize)
        requires
            self.wf(),
        ensures
            pad == self.spec_gen_size() + self.spec_trim() - (length as int
                % self.spec_gen_size()),
            self.spec_trim() + 1 <= pad,
            pad <= self.spec_gen_size() + self.spec_trim(),
    {
        let gen_size = self.gen_size();
        let trim = self.trim();
        proof {
            lemma_mod_bound(length as int, gen_size as int);
        }
        gen_size + trim - (length % gen_size)
    }
}

/// The complete integer skeleton of one separation run over a mixture of
/// a given length.
pub struct DemixPlan {
    pub trim: usize,
    pub pad: usize,
    pub new_len: usize,
    pub step: usize,
    pub chunk_size: usize,
    pub chunks: Vec<Chunk>,
}

/// Lays out a separation run: the margins around the mixture, the padded
/// length, and the full chunk schedule. The pad is never zero — it always
/// exceeds the trim margin — and the last scheduled chunk still starts
/// inside the padded mixture, so no final partial chunk is skipped.
pub fn plan_demix(p: &DemixParams, length: usize) -> (plan: DemixPlan)
    requires
        p.wf(),
        p.spec_fits(length as int),
    ensures
        plan.trim == p.spec_trim(),
        plan.chunk_size == p.spec_chunk_size(),
        plan.step == p.spec_step(),
        plan.pad == p.spec_gen_size() + p.spec_trim() - (length as int % p.spec_gen_size()),
        p.spec_trim() + 1 <= plan.pad <= p.spec_gen_size() + p.spec_trim(),
        plan.new_len == p.spec_trim() + length + plan.pad,
        plan.chunks@.len() == (plan.new_len - 1) / (plan.step as int) + 1,
        forall|k: int|
            0 <= k < plan.chunks@.len() ==> (#[trigger] plan.chunks@[k]).start == k * plan.step,
        forall|k: int|
            0 <= k < plan.chunks@.len() ==> (#[trigger] plan.chunks@[k]).end == if k * plan.step
                + plan.chunk_size <= plan.new_len {
                k * plan.step + plan.chunk_size
            } else {
                plan.new_len as int
            },
        forall|k: int|
            0 <= k < plan.chunks@.len() ==> (#[trigger] plan.chunks@[k]).start < plan.new_len,
{
    let trim = p.trim();
    let chunk_size = p.chunk_size();
    let step = p.step();
    let pad = p.compute_pad(length);
    let new_len = trim + length + pad;
    let chunks = chunk_schedule(new_len, step, chunk_size);
    DemixPlan { trim, pad, new_len, step, chunk_size, chunks }
}

/// The chunk starts run from `0` to just below `new_len` in increments of
/// `step`; a chunk ends `chunk_size` samples later, clipped to `new_len`.
/// The loop never skips a final partial chunk: every position of the
/// padded mixture lies in some chunk, and the last start is `< new_len`.
pub fn chunk_schedule(new_len: usize, step: usize, chunk_size: usize) -> (chunks: Vec<Chunk>)
    requires
        1 <= step,
        1 <= new_len,
        new_len + chunk_size <= usize::MAX,
        new_len + step <= usize::MAX,
    ensures
        chunks@.len() == (new_len - 1) / (step as int) + 1,
        forall|k: int|
            0 <= k < chunks@.len() ==> (#[trigger] chunks@[k]).start == k * step,
        forall|k: int|
            0 <= k < chunks@.len() ==> (#[trigger] chunks@[k]).end == if k * step + chunk_size
                <= new_len {
                k * step + chunk_size
            } else {
                new_len as int
            },
        forall|k: int| 0 <= k < chunks@.len() ==> (#[trigger] chunks@[k]).start < new_len,
{
    let mut chunks: Vec<Chunk> = Vec::new();
    let mut start: usize = 0;
    proof {
        assert(chunks@.len() * step == 0) by (nonlinear_arith)
            requires
                chunks@.len() == 0,
        ;
    }
    while start < new_len
        invariant
            1 <= step,
            1 <= new_len,
            new_len + chunk_size <= usize::MAX,
            new_len + step <= usize::MAX,
            start == chunks@.len() * step,
            start <= new_len + step,
            chunks@.len() >= 1 ==> (chunks@.len() - 1) * step < new_len,
            forall|k: int|
                0 <= k < chunks@.len() ==> (#[trigger] chunks@[k]).start == k * step,
            forall|k: int|
                0 <= k < chunks@.len() ==> (#[trigger] chunks@[k]).end == if k * step
                    + chunk_size <= new_len {
                    k * step + chunk_size
                } else {
                    new_len as int
                },
            forall|k: int| 0 <= k < chunks@.len() ==> (#[trigger] chunks@[k]).start < new_len,
        decreases new_len + step - start,
    {
        let end = if start + chunk_size <= new_len {
            start + chunk_size
        } else {
            new_len
        };
        chunks.push(Chunk { start, end });
        proof {
            let k = chunks@.len() as int;
            assert(k * step == (k - 1) * step + step) by (nonlinear_arith);
        }
        start += step;
    }
    proof {
        let k = chunks@.len() as int;
        let s = step as int;
        let n = new_len as int;
        assert(k >= 1) by (nonlinear_arith)
            requires
                k >= 0,
                s >= 1,
                k * s >= n,
                n >= 1,
        ;
        assert(k * s == (k - 1) * s + s) by (nonlinear_arith);
        assert(0 <= n - 1 - (k - 1) * s < s);
        lemma_fundamental_div_mod_converse(n - 1, s, k - 1, n - 1 - (k - 1) * s);
    }
    chunks
}

/// Glues `trim` zeros, the mixture, and `pad` zeros along the time axis.
/// Every channel of the result reads, position by position: the left
/// margin, the untouched mixture, the right margin.
pub fn build_padded_mixture<T: Copy>(
    mix: &Vec<Vec<T>>,
    length: usize,
    trim: usize,
    pad: usize,
    zero: T,
) -> (padded: Vec<Vec<T>>)
    requires
        forall|c: int| 0 <= c < mix@.len() ==> (#[trigger] mix@[c])@.len() == length,
        trim + length + pad <= usize::MAX,
    ensures
        padded@.len() == mix@.len(),
        forall|c: int|
            0 <= c < padded@.len() ==> (#[trigger] padded@[c])@.len() == trim + length + pad,
        forall|c: int, i: int|
            0 <= c < padded@.len() && 0 <= i < trim + length + pad ==> padded@[c]@[i] == (if i
                < trim {
                zero
            } else if i < trim + length {
                mix@[c]@[i - trim]
            } else {
                zero
            }),
{
    let channels = mix.len();
    let mut padded: Vec<Vec<T>> = Vec::new();
    let mut c: usize = 0;
    while c < channels
        invariant
            c <= channels,
            channels == mix@.len(),
            trim + length + pad <= usize::MAX,
            forall|c2: int| 0 <= c2 < channels ==> (#[trigger] mix@[c2])@.len() == length,
            padded@.len() == c,
            forall|c2: int|
                0 <= c2 < c ==> (#[trigger] padded@[c2])@.len() == trim + length + pad,
            forall|c2: int, i: int|
                0 <= c2 < c && 0 <= i < trim + length + pad ==> padded@[c2]@[i] == (if i < trim {
                    zero
                } else if i < trim + length {
                    mix@[c2]@[i - trim]
                } else {
                    zero
                }),
        decreases channels - c,
    {
        let mut row: Vec<T> = Vec::new();
        let mut i: usize = 0;
        while i < trim
            invariant
                i <= trim,
                row@.len() == i,
                forall|j: int| 0 <= j < i ==> row@[j] == zero,
            decreases trim - i,
        {
            row.push(zero);
            i += 1;
        }
        let mut t: usize = 0;
        while t < length
            invariant
                t <= length,
                c < channels,
                channels == mix@.len(),
                forall|c2: int| 0 <= c2 < channels ==> (#[trigger] mix@[c2])@.len() == length,
                row@.len() == trim + t,
                forall|j: int| 0 <= j < trim ==> row@[j] == zero,
                forall|j: int| trim <= j < trim + t ==> row@[j] == mix@[c as int]@[j - trim],
            decreases length - t,
        {
            row.push(mix[c][t]);
            t += 1;
        }
        let mut q: usize = 0;
        while q < pad
            invariant
                q <= pad,
                c < channels,
                channels == mix@.len(),
                forall|c2: int| 0 <= c2 < channels ==> (#[trigger] mix@[c2])@.len() == length,
                row@.len() == trim + length + q,
                forall|j: int| 0 <= j < trim ==> row@[j] == zero,
                forall|j: int| trim <= j < trim + length ==> row@[j] == mix@[c as int]@[j - trim],
                forall|j: int| trim + length <= j < trim + length + q ==> row@[j] == zero,
            decreases pad - q,
        {
            row.push(zero);
            q += 1;
        }
        padded.push(row);
        c += 1;
    }
    padded
}

/// Cuts samples `start .. end` of every channel and right-pads the cut
/// with zeros to the nominal chunk size, as the final, shorter chunk of a
/// schedule requires before it can be transformed.
pub fn extract_chunk<T: Copy>(
    padded: &Vec<Vec<T>>,
    start: usize,
    end: usize,
    chunk_size: usize,
    zero: T,
) -> (chunk: Vec<Vec<T>>)
    requires
        start <= end,
        end - start <= chunk_size,
        forall|c: int| 0 <= c < padded@.len() ==> end <= (#[trigger] padded@[c])@.len(),
    ensures
        chunk@.len() == padded@.len(),
        forall|c: int| 0 <= c < chunk@.len() ==> (#[trigger] chunk@[c])@.len() == chunk_size,
        forall|c: int, i: int|
            0 <= c < chunk@.len() && 0 <= i < chunk_size ==> chunk@[c]@[i] == (if i < end - start {
                padded@[c]@[start + i]
            } else {
                zero
            }),
{
    let channels = padded.len();
    let actual = end - start;
    let mut chunk: Vec<Vec<T>> = Vec::new();
    let mut c: usize = 0;
    while c < channels
        invariant
            c <= channels,
            channels == padded@.len(),
            start <= end,
            actual == end - start,
            actual <= chunk_size,
            forall|c2: int| 0 <= c2 < channels ==> end <= (#[trigger] padded@[c2])@.len(),
            chunk@.len() == c,
            forall|c2: int| 0 <= c2 < c ==> (#[trigger] chunk@[c2])@.len() == chunk_size,
            forall|c2: int, i: int|
                0 <= c2 < c && 0 <= i < chunk_size ==> chunk@[c2]@[i] == (if i < actual {
                    padded@[c2]@[start + i]
                } else {
                    zero
                }),
        decreases channels - c,
    {
        let mut row: Vec<T> = Vec::new();
        let mut i: usize = 0;
        while i < actual
            invariant
                i <= actual,
                c < channels,
                channels == padded@.len(),
                start <= end,
                actual == end - start,
                forall|c2: int| 0 <= c2 < channels ==> end <= (#[trigger] padded@[c2])@.len(),
                row@.len() == i,
                forall|j: int| 0 <= j < i ==> row@[j] == padded@[c as int]@[start + j],
            decreases actual - i,
        {
            row.push(padded[c][start + i]);
            i += 1;
        }
        while i < chunk_size
            invariant
                actual <= i <= chunk_size,
                c < channels,
                channels == padded@.len(),
                actual == end - start,
                row@.len() == i,
                forall|j: int| 0 <= j < actual ==> row@[j] == padded@[c as int]@[start + j],
                forall|j: int| actual <= j < i ==> row@[j] == zero,
            decreases chunk_size - i,
        {
            row.push(zero);
            i += 1;
        }
        chunk.push(row);
        c += 1;
    }
    chunk
}

/// Blanks the `count` lowest-frequency rows of every spectrogram plane —
/// the fixed notch the separator applies before each predictor call —
/// and leaves every other entry untouched.
pub fn zero_low_bins<T: Copy>(planes: &Vec<Vec<Vec<T>>>, count: usize, zero: T) -> (out: Vec<
    Vec<Vec<T>>,
>)
    ensures
        out@.len() == planes@.len(),
        forall|p: int|
            0 <= p < out@.len() ==> (#[trigger] out@[p])@.len() == planes@[p]@.len(),
        forall|p: int, b: int|
            0 <= p < out@.len() && 0 <= b < out@[p]@.len() ==> (#[trigger] out@[p]@[b])@.len()
                == planes@[p]@[b]@.len(),
        forall|p: int, b: int, f: int|
            0 <= p < out@.len() && 0 <= b < out@[p]@.len() && 0 <= f < out@[p]@[b]@.len()
                ==> out@[p]@[b]@[f] == (if b < count {
                zero
            } else {
                planes@[p]@[b]@[f]
            }),
{
    let mut out: Vec<Vec<Vec<T>>> = Vec::new();
    let mut p: usize = 0;
    while p < planes.len()
        invariant
            p <= planes@.len(),
            out@.len() == p,
            forall|p2: int|
                0 <= p2 < p ==> (#[trigger] out@[p2])@.len() == planes@[p2]@.len(),
            forall|p2: int, b: int|
                0 <= p2 < p && 0 <= b < out@[p2]@.len() ==> (#[trigger] out@[p2]@[b])@.len()
                    == planes@[p2]@[b]@.len(),
            forall|p2: int, b: int, f: int|
                0 <= p2 < p && 0 <= b < out@[p2]@.len() && 0 <= f < out@[p2]@[b]@.len()
                    ==> out@[p2]@[b]@[f] == (if b < count {
                    zero
                } else {
                    planes@[p2]@[b]@[f]
                }),
        decreases planes@.len() - p,
    {
        let plane = &planes[p];
        let mut new_plane: Vec<Vec<T>> = Vec::new();
        let mut b: usize = 0;
        while b < plane.len()
            invariant
                b <= plane@.len(),
                plane == &planes@[p as int],
                p < planes@.len(),
                new_plane@.len() == b,
                forall|b2: int|
                    0 <= b2 < b ==> (#[trigger] new_plane@[b2])@.len() == plane@[b2]@.len(),
                forall|b2: int, f: int|
                    0 <= b2 < b && 0 <= f < new_plane@[b2]@.len() ==> new_plane@[b2]@[f] == (
                    if b2 < count {
                        zero
                    } else {
                        plane@[b2]@[f]
                    }),
            decreases plane@.len() - b,
        {
            let old_row = &plane[b];
            let mut row: Vec<T> = Vec::new();
            let mut f: usize = 0;
            while f < old_row.len()
                invariant
                    f <= old_row@.len(),
                    old_row == &plane@[b as int],
                    b < plane@.len(),
                    row@.len() == f,
                    forall|f2: int|
                        0 <= f2 < f ==> row@[f2] == (if (b as int) < count {
                            zero
                        } else {
                            old_row@[f2]
                        }),
                decreases old_row@.len() - f,
            {
                if b < count {
                    row.push(zero);
                } else {
                    row.push(old_row[f]);
                }
                f += 1;
            }
            new_plane.push(row);
            b += 1;
        }
        out.push(new_plane);
        p += 1;
    }
    out
}

/// Cuts the margins off the normalized accumulation: channels keep the
/// samples from `trim` to `min(new_len - trim, trim + length)`, the
/// region that corresponds to the original mixture.
pub fn trim_output<T: Copy>(tar: &Vec<Vec<T>>, new_len: usize, trim: usize, length: usize) -> (out:
    Vec<Vec<T>>)
    requires
        2 * trim <= new_len,
        trim + length <= usize::MAX,
        forall|c: int| 0 <= c < tar@.len() ==> (#[trigger] tar@[c])@.len() == new_len,
    ensures
        out@.len() == tar@.len(),
        forall|c: int|
            0 <= c < out@.len() ==> (#[trigger] out@[c])@.len() == (if new_len - trim <= trim
                + length {
                new_len - 2 * trim
            } else {
                length as int
            }),
        forall|c: int, i: int|
            0 <= c < out@.len() && 0 <= i < out@[c]@.len() ==> out@[c]@[i] == tar@[c]@[trim + i],
{
    let right = if new_len - trim <= trim + length {
        new_len - trim
    } else {
        trim + length
    };
    let channels = tar.len();
    let mut out: Vec<Vec<T>> = Vec::new();
    let mut c: usize = 0;
    while c < channels
        invariant
            c <= channels,
            channels == tar@.len(),
            trim <= right <= new_len,
            right == (if new_len - trim <= trim + length {
                new_len - trim
            } else {
                trim + length
            }),
            forall|c2: int| 0 <= c2 < channels ==> (#[trigger] tar@[c2])@.len() == new_len,
            out@.len() == c,
            forall|c2: int| 0 <= c2 < c ==> (#[trigger] out@[c2])@.len() == right - trim,
            forall|c2: int, i: int|
                0 <= c2 < c && 0 <= i < right - trim ==> out@[c2]@[i] == tar@[c2]@[trim + i],
        decreases channels - c,
    {
        let mut row: Vec<T> = Vec::new();
        let mut i: usize = 0;
        while i < right - trim
            invariant
                i <= right - trim,
                c < channels,
                channels == tar@.len(),
                trim <= right <= new_len,
                forall|c2: int| 0 <= c2 < channels ==> (#[trigger] tar@[c2])@.len() == new_len,
                row@.len() == i,
                forall|j: int| 0 <= j < i ==> row@[j] == tar@[c as int]@[trim + j],
            decreases right - trim - i,
        {
            row.push(tar[c][trim + i]);
            i += 1;
        }
        out.push(row);
        c += 1;
    }
    out
}

/// Every position of the padded mixture falls into some scheduled chunk:
/// the loop over chunk starts never skips a final partial chunk.
pub proof fn lemma_schedule_covers(new_len: int, step: int, chunk_size: int, idx: int)
    requires
        1 <= step <= chunk_size,
        0 <= idx < new_len,
    ensures
        exists|k: int|
            0 <= k <= (new_len - 1) / step && (#[trigger] (k * step)) <= idx && idx < (
            if k * step + chunk_size <= new_len {
                k * step + chunk_size
            } else {
                new_len
            }),
{
    let k = idx / step;
    lemma_fundamental_div_mod(idx, step);
    lemma_mod_division_less_than_divisor(idx, step);
    assert(step * (idx / step) == (idx / step) * step) by (nonlinear_arith);
    lemma_div_pos_is_pos(idx, step);
    lemma_div_is_ordered(idx, new_len - 1, step);
    assert(0 <= k <= (new_len - 1) / step && (k * step) <= idx && idx < (
    if k * step + chunk_size <= new_len {
        k * step + chunk_size
    } else {
        new_len
    }));
}

/// Every sample of the valid output region is strictly inside some chunk
/// of the schedule: there is a chunk whose start lies strictly before the
/// sample and whose end lies more than one sample past it. The divider is
/// therefore strictly positive there — the symmetric taper vanishes only
/// at a chunk's first and last position, and this chunk overlaps the
/// sample away from both.
pub proof fn lemma_divider_coverage(p: DemixParams, length: int, pad: int, idx: int)
    requires
        p.wf(),
        1 <= length,
        p.spec_trim() + 1 <= pad,
        p.spec_trim() + length + pad <= usize::MAX,
        p.spec_trim() <= idx < p.spec_trim() + length,
    ensures
        ({
            let step = p.spec_step();
            let chunk = p.spec_chunk_size();
            let new_len = p.spec_trim() + length + pad;
            exists|k: int|
                0 <= k <= (new_len - 1) / step && (#[trigger] (k * step)) < idx && idx + 1 < (
                if k * step + chunk <= new_len {
                    k * step + chunk
                } else {
                    new_len
                })
        }),
{
    let step = p.spec_step();
    let chunk = p.spec_chunk_size();
    let trim = p.spec_trim();
    let new_len = trim + length + pad;
    let k = (idx - 1) / step;
    let start = k * step;
    lemma_fundamental_div_mod(idx - 1, step);
    lemma_mod_division_less_than_divisor(idx - 1, step);
    assert(step * ((idx - 1) / step) == ((idx - 1) / step) * step) by (nonlinear_arith);
    assert(start <= idx - 1);
    assert(idx - 1 < start + step);
    lemma_div_pos_is_pos(idx - 1, step);
    assert(k >= 0);
    // The chosen chunk extends far enough right: the step is shorter than
    // the chunk by a full FFT length.
    assert(idx + 1 < start + chunk);
    // The sample sits well left of the padded end: the right margin is at
    // least `trim + 1 >= 2` samples wide.
    assert(idx + 1 < new_len);
    // The chosen start is one of the scheduled ones.
    lemma_div_is_ordered(idx - 1, new_len - 1, step);
    assert(k <= (new_len - 1) / step);
    assert(0 <= k <= (new_len - 1) / step && (k * step) < idx && idx + 1 < (
    if k * step + chunk <= new_len {
        k * step + chunk
    } else {
        new_len
    }));
}

} // verus!

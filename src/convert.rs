//! Sample conversion: unsigned to signed PCM, downmixing interleaved frames to
//! mono, and linear-interpolation resampling between integer rates.
use vstd::prelude::*;

verus! {

/// The rate, in Hz, of every chunk handed downstream.
pub const CANONICAL_RATE: u32 = 16000;

/// Sum of a sequence of samples.
pub open spec fn sum_of(s: Seq<i16>) -> int
    decreases s.len(),
{
    if s.len() == 0 {
        0
    } else {
        sum_of(s.drop_last()) + s.last() as int
    }
}

/// Integer division truncating toward zero, for a positive divisor.
pub open spec fn div_toward_zero(a: int, d: int) -> int {
    if a >= 0 {
        a / d
    } else {
        -((-a) / d)
    }
}

/// Integer division rounding to nearest, halves away from zero, for a positive divisor.
pub open spec fn div_round(a: int, d: int) -> int {
    if a >= 0 {
        (2 * a + d) / (2 * d)
    } else {
        -((2 * (-a) + d) / (2 * d))
    }
}

/// The samples of frame `k` of an interleaved buffer with `c` channels.
pub open spec fn frame(s: Seq<i16>, c: nat, k: int) -> Seq<i16> {
    s.subrange(k * c, k * c + c)
}

/// Mono version of an interleaved buffer: identity for one channel, otherwise
/// the truncated average of each complete frame (a trailing partial frame is
/// dropped). Zero channels give no frames.
pub open spec fn downmix_spec(s: Seq<i16>, c: nat) -> Seq<i16> {
    if c == 1 {
        s
    } else if c == 0 {
        Seq::empty()
    } else {
        Seq::new(s.len() / c, |k: int| div_toward_zero(sum_of(frame(s, c, k)), c as int) as i16)
    }
}

/// An unsigned sample recentred onto the signed range.
pub open spec fn recenter(u: u16) -> i16 {
    (u as int - 32768) as i16
}

/// Number of output samples when resampling `n` samples from `from` Hz to `to` Hz:
/// the ceiling of `n * to / from`.
pub open spec fn resampled_len(n: nat, from: u32, to: u32) -> int {
    (n * to + from - 1) / from as int
}

/// Output sample `i`: position `i * from / to` in the input, linearly
/// interpolated between its two neighbours and rounded, or the last sample
/// where there is no upper neighbour.
pub open spec fn resample_point(s: Seq<i16>, from: u32, to: u32, i: int) -> i16 {
    let p = i * from;
    let idx = p / to as int;
    let r = p % to as int;
    if idx + 1 < s.len() {
        div_round(s[idx] as int * (to - r) + s[idx + 1] as int * r, to as int) as i16
    } else if idx < s.len() - 1 {
        s[idx]
    } else {
        s[s.len() - 1]
    }
}

/// Linear resampling: identity when the rates agree or there is nothing to
/// resample; empty when either rate is zero.
pub open spec fn resample_spec(s: Seq<i16>, from: u32, to: u32) -> Seq<i16> {
    if from == to || s.len() == 0 {
        s
    } else if from == 0 || to == 0 {
        Seq::empty()
    } else {
        Seq::new(resampled_len(s.len(), from, to) as nat, |i: int| resample_point(s, from, to, i))
    }
}

/// Whether the resampled output of `n` samples can be held in memory.
pub open spec fn resample_fits(n: nat, from: u32, to: u32) -> bool {
    from == 0 || resampled_len(n, from, to) <= usize::MAX
}

proof fn lemma_sum_bounds(s: Seq<i16>)
    ensures
        -32768 * s.len() <= sum_of(s) <= 32767 * s.len(),
    decreases s.len(),
{
    if s.len() > 0 {
        lemma_sum_bounds(s.drop_last());
    }
}

proof fn lemma_sum_extend(s: Seq<i16>, a: int, b: int)
    requires
        0 <= a <= b < s.len(),
    ensures
        sum_of(s.subrange(a, b + 1)) == sum_of(s.subrange(a, b)) + s[b] as int,
{
    assert(s.subrange(a, b + 1).drop_last() =~= s.subrange(a, b));
}

proof fn lemma_average_in_range(sum: int, c: int)
    requires
        c > 0,
        -32768 * c <= sum <= 32767 * c,
    ensures
        -32768 <= div_toward_zero(sum, c) <= 32767,
{
    if sum >= 0 {
        assert(sum / c <= 32767) by (nonlinear_arith)
            requires sum <= 32767 * c, c > 0, sum >= 0;
        assert(sum / c >= 0) by (nonlinear_arith)
            requires c > 0, sum >= 0;
    } else {
        assert((-sum) / c <= 32768) by (nonlinear_arith)
            requires -sum <= 32768 * c, c > 0, sum < 0;
        assert((-sum) / c >= 0) by (nonlinear_arith)
            requires c > 0, sum < 0;
    }
}

proof fn lemma_round_between(a: int, b: int, num: int, d: int)
    requires
        d > 0,
        a <= b,
        a * d <= num <= b * d,
    ensures
        a <= div_round(num, d) <= b,
{
    if num >= 0 {
        assert((2 * num + d) / (2 * d) <= b) by (nonlinear_arith)
            requires num <= b * d, d > 0, num >= 0;
        assert((2 * num + d) / (2 * d) >= a) by (nonlinear_arith)
            requires a * d <= num, d > 0, num >= 0;
    } else {
        assert((2 * (-num) + d) / (2 * d) <= -a) by (nonlinear_arith)
            requires a * d <= num, d > 0, num < 0;
        assert((2 * (-num) + d) / (2 * d) >= -b) by (nonlinear_arith)
            requires num <= b * d, d > 0, num < 0;
    }
}

/// Recentre an unsigned 16-bit sample onto the signed range by subtracting 32768.
pub fn u16_to_i16(sample: u16) -> (r: i16)
    ensures
        r == recenter(sample),
        r as int == sample as int - 32768,
{
    (sample as i32 - 32768) as i16
}

/// Recentre every sample of an unsigned buffer.
pub fn u16_buffer_to_i16(data: &[u16]) -> (r: Vec<i16>)
    ensures
        r@ == data@.map_values(|u: u16| recenter(u)),
{
    let mut out: Vec<i16> = Vec::new();
    let mut i: usize = 0;
    while i < data.len()
        invariant
            i <= data@.len(),
            out@ =~= data@.subrange(0, i as int).map_values(|u: u16| recenter(u)),
        decreases data@.len() - i,
    {
        out.push(u16_to_i16(data[i]));
        i = i + 1;
    }
    out
}

/// Sum of frame `k` of an interleaved buffer, accumulated over its samples.
fn frame_sum(data: &[i16], channels: usize, k: usize) -> (r: i128)
    requires
        channels > 0,
        (k + 1) * channels <= data@.len(),
    ensures
        r as int == sum_of(frame(data@, channels as nat, k as int)),
        -32768 * channels <= r <= 32767 * channels,
{
    let len: usize = data.len();
    proof {
        assert(k * channels + channels <= len) by (nonlinear_arith)
            requires (k + 1) * channels <= len;
    }
    let base: usize = k * channels;
    let mut acc: i128 = 0;
    let mut j: usize = 0;
    assert(data@.subrange(base as int, base as int) =~= Seq::<i16>::empty());
    while j < channels
        invariant
            base == k * channels,
            len == data@.len(),
            base + channels <= len,
            j <= channels,
            acc as int == sum_of(data@.subrange(base as int, base + j)),
            -32768 * j <= acc <= 32767 * j,
        decreases channels - j,
    {
        proof {
            lemma_sum_extend(data@, base as int, base + j);
        }
        acc = acc + data[base + j] as i128;
        j = j + 1;
    }
    acc
}

/// Downmix interleaved multi-channel samples to mono by averaging each frame.
pub fn downmix_to_mono_i16(data: &[i16], channels: usize) -> (r: Vec<i16>)
    ensures
        r@ == downmix_spec(data@, channels as nat),
        channels == 1 ==> r@ == data@,
        channels >= 1 ==> r@.len() == data@.len() / (channels as nat),
{
    if channels == 1 {
        return vstd::slice::slice_to_vec(data);
    }
    let mut out: Vec<i16> = Vec::new();
    if channels == 0 {
        return out;
    }
    let frames: usize = data.len() / channels;
    let mut k: usize = 0;
    while k < frames
        invariant
            channels > 1,
            frames == data@.len() / (channels as nat),
            k <= frames,
            out@.len() == k,
            forall|m: int|
                0 <= m < k ==> #[trigger] out@[m] == div_toward_zero(
                    sum_of(frame(data@, channels as nat, m)),
                    channels as int,
                ) as i16,
        decreases frames - k,
    {
        proof {
            assert((k + 1) * channels <= frames * channels) by (nonlinear_arith)
                requires k < frames;
            assert(frames * channels <= data@.len()) by (nonlinear_arith)
                requires frames == data@.len() / (channels as nat), channels > 0;
        }
        let sum = frame_sum(data, channels, k);
        let avg: i128 = if sum >= 0 {
            sum / channels as i128
        } else {
            -((-sum) / channels as i128)
        };
        proof {
            lemma_average_in_range(sum as int, channels as int);
        }
        out.push(avg as i16);
        k = k + 1;
    }
    assert(out@ =~= downmix_spec(data@, channels as nat));
    out
}

/// Resample by linear interpolation from `from_rate` Hz to `to_rate` Hz.
///
/// The output holds the ceiling of `len * to_rate / from_rate` samples; output
/// sample `i` sits at input position `i * from_rate / to_rate`.
pub fn resample(samples: &[i16], from_rate: u32, to_rate: u32) -> (r: Vec<i16>)
    requires
        resample_fits(samples@.len(), from_rate, to_rate),
    ensures
        r@ == resample_spec(samples@, from_rate, to_rate),
        from_rate == to_rate ==> r@ == samples@,
        samples@.len() == 0 ==> r@.len() == 0,
{
    if from_rate == to_rate || samples.len() == 0 {
        return vstd::slice::slice_to_vec(samples);
    }
    let mut out: Vec<i16> = Vec::new();
    if from_rate == 0 || to_rate == 0 {
        return out;
    }
    let n: usize = samples.len();
    let from: u128 = from_rate as u128;
    let to: u128 = to_rate as u128;
    proof {
        assert(n * to_rate + from_rate - 1 <= 0xffff_ffff_ffff_ffff * 0xffff_ffffu64 + 0xffff_ffffu64)
            by (nonlinear_arith)
            requires n <= 0xffff_ffff_ffff_ffffu64, to_rate <= 0xffff_ffffu32, from_rate <= 0xffff_ffffu32;
    }
    let out_len: u128 = (n as u128 * to + from - 1) / from;
    let out_len: usize = out_len as usize;
    let mut i: usize = 0;
    while i < out_len
        invariant
            n == samples@.len(),
            n > 0,
            from == from_rate,
            to == to_rate,
            from > 0,
            to > 0,
            out_len == resampled_len(n as nat, from_rate, to_rate),
            i <= out_len,
            out@.len() == i,
            forall|m: int| 0 <= m < i ==> #[trigger] out@[m] == resample_point(samples@, from_rate, to_rate, m),
        decreases out_len - i,
    {
        proof {
            assert(i * from_rate <= 0xffff_ffff_ffff_ffff * 0xffff_ffffu64) by (nonlinear_arith)
                requires i <= 0xffff_ffff_ffff_ffffu64, from_rate <= 0xffff_ffffu32;
        }
        let p: u128 = i as u128 * from;
        let idx: u128 = p / to;
        let rem: u128 = p % to;
        let v: i16 = if idx + 1 < n as u128 {
            let lo: i64 = samples[idx as usize] as i64;
            let hi: i64 = samples[idx as usize + 1] as i64;
            let w: i64 = (to - rem) as i64;
            let rr: i64 = rem as i64;
            let t: i64 = to as i64;
            proof {
                assert(-32768 * w <= lo * w <= 32767 * w) by (nonlinear_arith)
                    requires -32768 <= lo <= 32767, 0 <= w <= 0xffff_ffffu32;
                assert(-32768 * rr <= hi * rr <= 32767 * rr) by (nonlinear_arith)
                    requires -32768 <= hi <= 32767, 0 <= rr <= 0xffff_ffffu32;
                let mn = if lo <= hi { lo as int } else { hi as int };
                let mx = if lo <= hi { hi as int } else { lo as int };
                assert(mn * t <= lo * w + hi * rr <= mx * t) by (nonlinear_arith)
                    requires
                        w + rr == t,
                        w >= 0,
                        rr >= 0,
                        mn <= lo <= mx,
                        mn <= hi <= mx;
                lemma_round_between(mn, mx, lo * w + hi * rr, t as int);
            }
            let num: i64 = lo * w + hi * rr;
            let q: i64 = if num >= 0 {
                (2 * num + t) / (2 * t)
            } else {
                -((2 * (-num) + t) / (2 * t))
            };
            q as i16
        } else if idx < (n - 1) as u128 {
            samples[idx as usize]
        } else {
            samples[n - 1]
        };
        out.push(v);
        i = i + 1;
    }
    assert(out@ =~= resample_spec(samples@, from_rate, to_rate));
    out
}

/// Stereo downmix: each output sample is the sum of its frame's left and right
/// samples divided by two, truncated toward zero; a trailing odd sample is dropped.
pub proof fn stereo_downmix_averages_pairs(s: Seq<i16>)
    ensures
        downmix_spec(s, 2).len() == s.len() / 2,
        forall|k: int|
            0 <= k < s.len() / 2 ==> #[trigger] downmix_spec(s, 2)[k] as int == div_toward_zero(
                s[2 * k] as int + s[2 * k + 1] as int,
                2,
            ),
{
    assert forall|k: int| 0 <= k < s.len() / 2 implies #[trigger] downmix_spec(s, 2)[k] as int
        == div_toward_zero(s[2 * k] as int + s[2 * k + 1] as int, 2) by {
        let f = frame(s, 2, k);
        assert(f.len() == 2);
        assert(k * 2 + 2 <= s.len());
        assert(f[0] == s[2 * k] && f[1] == s[2 * k + 1]);
        let g = f.drop_last();
        assert(g.len() == 1 && g.last() == s[2 * k]);
        assert(g.drop_last() =~= Seq::<i16>::empty());
        assert(sum_of(g.drop_last()) == 0);
        assert(sum_of(g) == s[2 * k] as int);
        assert(sum_of(f) == s[2 * k] as int + s[2 * k + 1] as int);
        lemma_sum_bounds(f);
        lemma_average_in_range(sum_of(f), 2);
    }
}

} // verus!

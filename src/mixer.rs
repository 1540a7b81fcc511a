//! Mixing two PCM buffers into one, with saturation at the 16-bit range.
use vstd::prelude::*;

verus! {

/// Sample `i` of a buffer, or silence past its end.
pub open spec fn sample_or_silence(s: Seq<i16>, i: int) -> int {
    if 0 <= i < s.len() {
        s[i] as int
    } else {
        0
    }
}

/// A value clamped into the signed 16-bit range.
pub open spec fn saturate(v: int) -> i16 {
    if v > i16::MAX {
        i16::MAX
    } else if v < i16::MIN {
        i16::MIN
    } else {
        v as i16
    }
}

/// The mix of two buffers: as long as the longer one, the shorter padded with
/// silence, each pair of samples summed and saturated.
pub open spec fn mix_spec(a: Seq<i16>, b: Seq<i16>) -> Seq<i16> {
    let len = if a.len() >= b.len() { a.len() } else { b.len() };
    Seq::new(len, |i: int| saturate(sample_or_silence(a, i) + sample_or_silence(b, i)))
}

/// Mix two PCM buffers together with clamping; the shorter one is padded with silence.
pub fn mix_samples(a: &[i16], b: &[i16]) -> (r: Vec<i16>)
    ensures
        r@ == mix_spec(a@, b@),
{
    let len: usize = if a.len() >= b.len() {
        a.len()
    } else {
        b.len()
    };
    let mut out: Vec<i16> = Vec::new();
    let mut i: usize = 0;
    while i < len
        invariant
            len == (if a@.len() >= b@.len() { a@.len() } else { b@.len() }),
            i <= len,
            out@.len() == i,
            forall|m: int|
                0 <= m < i ==> #[trigger] out@[m] == saturate(
                    sample_or_silence(a@, m) + sample_or_silence(b@, m),
                ),
        decreases len - i,
    {
        let sa: i32 = if i < a.len() {
            a[i] as i32
        } else {
            0
        };
        let sb: i32 = if i < b.len() {
            b[i] as i32
        } else {
            0
        };
        let sum: i32 = sa + sb;
        let v: i16 = if sum > i16::MAX as i32 {
            i16::MAX
        } else if sum < i16::MIN as i32 {
            i16::MIN
        } else {
            sum as i16
        };
        out.push(v);
        i = i + 1;
    }
    assert(out@ =~= mix_spec(a@, b@));
    out
}

/// Mixing buffers of unequal length is the same as first padding the shorter
/// one with silence up to the length of the longer one.
pub proof fn mix_pads_shorter_with_silence(a: Seq<i16>, b: Seq<i16>)
    requires
        b.len() <= a.len(),
    ensures
        mix_spec(a, b) == mix_spec(a, b + Seq::new((a.len() - b.len()) as nat, |i: int| 0i16)),
{
    let padded = b + Seq::new((a.len() - b.len()) as nat, |i: int| 0i16);
    assert forall|i: int| 0 <= i < a.len() implies sample_or_silence(b, i) == sample_or_silence(
        padded,
        i,
    ) by {
        if i >= b.len() {
            assert(padded[i] == 0i16);
        }
    }
    assert(mix_spec(a, b) =~= mix_spec(a, padded));
}

} // verus!

//! The real-time conversion pipeline: one native-format audio block in, one
//! canonical block of 16-bit little-endian signed PCM bytes out, with
//! stereo-to-mono downmix when the session captured two channels.
//!
//! Float samples are carried in 16.16 fixed point: an `i32` whose value is
//! the sample amplitude times 65536, so that amplitude 1.0 is `FX_ONE`. The
//! boundary that reads hardware buffers converts each 32-bit float to this
//! representation before the pipeline runs; everything past that point is
//! integer arithmetic.

use vstd::prelude::*;

verus! {

/// Fixed-point representation of amplitude 1.0.
pub const FX_ONE: i32 = 65536;

/// One block of samples as the device delivered them, tagged by the device's
/// native encoding. Float blocks hold the 16.16 fixed-point image of each
/// sample.
pub enum SampleBlock {
    F32(Vec<i32>),
    I16(Vec<i16>),
    U16(Vec<u16>),
}

/// Division truncating toward zero (the rounding of Rust's integer `/`),
/// for a positive divisor.
pub open spec fn div_trunc(a: int, b: int) -> int {
    if a >= 0 {
        a / b
    } else {
        -((-a) / b)
    }
}

/// Clamp a fixed-point amplitude to [-1.0, 1.0].
pub open spec fn clamp_unit(v: int) -> int {
    if v < -65536 {
        -65536
    } else if v > 65536 {
        65536
    } else {
        v
    }
}

/// Canonical value of one float sample: clamp to [-1.0, 1.0], scale by the
/// maximum 16-bit signed magnitude, truncate.
pub open spec fn fx_to_canon(v: int) -> int {
    div_trunc(clamp_unit(v) * 32767, 65536)
}

/// Canonical value of one unsigned 16-bit sample: recenter around zero.
pub open spec fn u16_to_canon(v: int) -> int {
    v - 32768
}

/// Integer average of one stereo frame, truncating toward zero.
pub open spec fn frame_avg(l: int, r: int) -> int {
    div_trunc(l + r, 2)
}

impl SampleBlock {
    /// How many samples the block carries.
    pub open spec fn sample_count(self) -> nat {
        match self {
            SampleBlock::F32(s) => s@.len(),
            SampleBlock::I16(s) => s@.len(),
            SampleBlock::U16(s) => s@.len(),
        }
    }

    /// The canonical mono sample sequence this block converts to. With
    /// `stereo` set, each pair of samples is one frame averaged to a single
    /// value (floats are averaged before clamping and scaling); a trailing
    /// partial frame is discarded. Without it, samples convert one for one.
    pub open spec fn canon(self, stereo: bool) -> Seq<int> {
        if stereo {
            match self {
                SampleBlock::F32(s) => Seq::new(
                    s@.len() / 2,
                    |i: int| fx_to_canon(frame_avg(s@[2 * i] as int, s@[2 * i + 1] as int)),
                ),
                SampleBlock::I16(s) => Seq::new(
                    s@.len() / 2,
                    |i: int| frame_avg(s@[2 * i] as int, s@[2 * i + 1] as int),
                ),
                SampleBlock::U16(s) => Seq::new(
                    s@.len() / 2,
                    |i: int| frame_avg(u16_to_canon(s@[2 * i] as int), u16_to_canon(s@[2 * i + 1] as int)),
                ),
            }
        } else {
            match self {
                SampleBlock::F32(s) => s@.map(|i: int, v: i32| fx_to_canon(v as int)),
                SampleBlock::I16(s) => s@.map(|i: int, v: i16| v as int),
                SampleBlock::U16(s) => s@.map(|i: int, v: u16| u16_to_canon(v as int)),
            }
        }
    }

    /// Whether every sample of the block has its encoding's zero amplitude
    /// (0.0 for floats, 0 for signed, the 32768 midpoint for unsigned).
    pub open spec fn is_zero_valued(self) -> bool {
        match self {
            SampleBlock::F32(s) => forall|i: int| 0 <= i < s@.len() ==> s@[i] == 0,
            SampleBlock::I16(s) => forall|i: int| 0 <= i < s@.len() ==> s@[i] == 0,
            SampleBlock::U16(s) => forall|i: int| 0 <= i < s@.len() ==> s@[i] == 32768,
        }
    }
}

/// The two's-complement 16-bit image of a canonical sample.
pub open spec fn to_u16_bits(v: int) -> int {
    if v < 0 {
        v + 65536
    } else {
        v
    }
}

/// The two little-endian bytes of one canonical sample.
pub open spec fn le16(v: int) -> Seq<u8> {
    seq![(to_u16_bits(v) % 256) as u8, (to_u16_bits(v) / 256) as u8]
}

/// The little-endian byte image of a whole canonical sample sequence.
pub open spec fn le_bytes_of_canon(s: Seq<int>) -> Seq<u8>
    decreases s.len(),
{
    if s.len() == 0 {
        Seq::empty()
    } else {
        le16(s[0]) + le_bytes_of_canon(s.subrange(1, s.len() as int))
    }
}

/// The byte image is exactly two bytes per sample.
pub proof fn lemma_le_bytes_len(s: Seq<int>)
    ensures
        le_bytes_of_canon(s).len() == 2 * s.len(),
    decreases s.len(),
{
    if s.len() > 0 {
        lemma_le_bytes_len(s.subrange(1, s.len() as int));
    }
}

/// Extending a canonical prefix by one sample appends that sample's two bytes.
proof fn lemma_le_bytes_snoc(s: Seq<int>, i: int)
    requires
        0 <= i < s.len(),
    ensures
        le_bytes_of_canon(s.take(i + 1)) == le_bytes_of_canon(s.take(i)) + le16(s[i]),
    decreases i,
{
    if i == 0 {
        assert(s.take(1).subrange(1, 1) =~= Seq::<int>::empty());
        assert(le_bytes_of_canon(s.take(1)) =~= le16(s[0]) + le_bytes_of_canon(Seq::empty()));
        assert(le_bytes_of_canon(s.take(0)) =~= Seq::<u8>::empty());
        assert(le_bytes_of_canon(s.take(1)) =~= le_bytes_of_canon(s.take(0)) + le16(s[0]));
    } else {
        let t = s.subrange(1, s.len() as int);
        lemma_le_bytes_snoc(t, i - 1);
        assert(s.take(i + 1).subrange(1, i + 1) =~= t.take(i));
        assert(s.take(i).subrange(1, i) =~= t.take(i - 1));
        assert(le_bytes_of_canon(s.take(i + 1)) =~= le16(s[0]) + le_bytes_of_canon(t.take(i)));
        assert(le_bytes_of_canon(s.take(i)) =~= le16(s[0]) + le_bytes_of_canon(t.take(i - 1)));
        assert(le16(s[0]) + (le_bytes_of_canon(t.take(i - 1)) + le16(t[i - 1])) =~= (le16(s[0])
            + le_bytes_of_canon(t.take(i - 1))) + le16(t[i - 1]));
        assert(s[i] == t[i - 1]);
    }
}

/// Truncating division of a magnitude-bounded value by 65536, after scaling
/// by 32767: the scaled quotient of a clamped amplitude.
fn scale_clamped(c: i32) -> (r: i16)
    requires
        -65536 <= c <= 65536,
    ensures
        r as int == div_trunc(c as int * 32767, 65536),
        -32767 <= r as int <= 32767,
{
    if c >= 0 {
        let p: u64 = (c as u64) * 32767;
        assert(p <= 65536 * 32767) by (nonlinear_arith)
            requires
                0 <= c <= 65536,
                p == c * 32767,
        ;
        let q: u64 = p / 65536;
        q as i16
    } else {
        let m: u64 = (-(c as i64)) as u64;
        let p: u64 = m * 32767;
        assert(p <= 65536 * 32767) by (nonlinear_arith)
            requires
                0 <= m <= 65536,
                p == m * 32767,
        ;
        let q: u64 = p / 65536;
        -(q as i16)
    }
}

/// Canonical value of one float sample held in 16.16 fixed point.
pub fn convert_f32_sample(v: i32) -> (r: i16)
    ensures
        r as int == fx_to_canon(v as int),
{
    let c: i32 = if v < -65536 {
        -65536
    } else if v > 65536 {
        65536
    } else {
        v
    };
    scale_clamped(c)
}

/// Canonical value of one stereo float frame: average the channels, then
/// clamp and scale the mean.
pub fn convert_f32_frame(l: i32, r: i32) -> (c: i16)
    ensures
        c as int == fx_to_canon(frame_avg(l as int, r as int)),
{
    let sum: i64 = l as i64 + r as i64;
    let avg: i64 = if sum >= 0 {
        ((sum as u64) / 2) as i64
    } else {
        -((((-sum) as u64) / 2) as i64)
    };
    assert(avg as int == frame_avg(l as int, r as int));
    let clamped: i32 = if avg < -65536 {
        -65536
    } else if avg > 65536 {
        65536
    } else {
        avg as i32
    };
    assert(clamped as int == clamp_unit(avg as int));
    assert(fx_to_canon(clamped as int) == fx_to_canon(avg as int));
    scale_clamped(clamped)
}

/// Canonical value of one unsigned 16-bit sample.
pub fn convert_u16_sample(v: u16) -> (r: i16)
    ensures
        r as int == u16_to_canon(v as int),
{
    ((v as i32) - 32768) as i16
}

/// Canonical value of one stereo frame of recentred unsigned samples.
pub fn convert_u16_frame(l: u16, r: u16) -> (c: i16)
    ensures
        c as int == frame_avg(u16_to_canon(l as int), u16_to_canon(r as int)),
{
    let sl: i32 = (l as i32) - 32768;
    let sr: i32 = (r as i32) - 32768;
    let sum: i32 = sl + sr;
    let avg: i32 = if sum >= 0 {
        ((sum as u32) / 2) as i32
    } else {
        -((((-sum) as u32) / 2) as i32)
    };
    avg as i16
}

/// Canonical value of one stereo frame of signed samples.
pub fn convert_i16_frame(l: i16, r: i16) -> (c: i16)
    ensures
        c as int == frame_avg(l as int, r as int),
{
    let sum: i32 = l as i32 + r as i32;
    let avg: i32 = if sum >= 0 {
        ((sum as u32) / 2) as i32
    } else {
        -((((-sum) as u32) / 2) as i32)
    };
    avg as i16
}

/// Convert one native block to its canonical mono 16-bit samples. With
/// `channels == 2` each complete frame is downmixed to one sample and a
/// trailing partial frame is dropped; any other channel count converts
/// sample for sample.
pub fn canonical_samples(block: &SampleBlock, channels: u16) -> (r: Vec<i16>)
    ensures
        r@.len() == block.canon(channels == 2).len(),
        forall|j: int| 0 <= j < r@.len() ==> r@[j] as int == block.canon(channels == 2)[j],
{
    let stereo = channels == 2;
    let ghost canon = block.canon(stereo);
    let mut out: Vec<i16> = Vec::new();
    match block {
        SampleBlock::F32(s) => {
            if stereo {
                let n = s.len() / 2;
                let mut i: usize = 0;
                while i < n
                    invariant
                        i <= n,
                        n == s@.len() / 2,
                        s@.len() <= usize::MAX,
                        canon.len() == n,
                        out@.len() == i,
                        forall|j: int| 0 <= j < i ==> out@[j] as int == canon[j],
                        forall|k: int| 0 <= k < canon.len() ==> canon[k] == fx_to_canon(
                            frame_avg(s@[2 * k] as int, s@[2 * k + 1] as int),
                        ),
                    decreases n - i,
                {
                    proof {
                        assert(2 * (i as int) + 1 < s@.len());
                    }
                    let c = convert_f32_frame(s[2 * i], s[2 * i + 1]);
                    out.push(c);
                    i += 1;
                }
            } else {
                let n = s.len();
                let mut i: usize = 0;
                while i < n
                    invariant
                        i <= n,
                        n == s@.len(),
                        canon.len() == n,
                        out@.len() == i,
                        forall|j: int| 0 <= j < i ==> out@[j] as int == canon[j],
                        forall|k: int| 0 <= k < canon.len() ==> canon[k] == fx_to_canon(s@[k] as int),
                    decreases n - i,
                {
                    let c = convert_f32_sample(s[i]);
                    out.push(c);
                    i += 1;
                }
            }
        },
        SampleBlock::I16(s) => {
            if stereo {
                let n = s.len() / 2;
                let mut i: usize = 0;
                while i < n
                    invariant
                        i <= n,
                        n == s@.len() / 2,
                        s@.len() <= usize::MAX,
                        canon.len() == n,
                        out@.len() == i,
                        forall|j: int| 0 <= j < i ==> out@[j] as int == canon[j],
                        forall|k: int| 0 <= k < canon.len() ==> canon[k] == frame_avg(
                            s@[2 * k] as int,
                            s@[2 * k + 1] as int,
                        ),
                    decreases n - i,
                {
                    proof {
                        assert(2 * (i as int) + 1 < s@.len());
                    }
                    let c = convert_i16_frame(s[2 * i], s[2 * i + 1]);
                    out.push(c);
                    i += 1;
                }
            } else {
                let n = s.len();
                let mut i: usize = 0;
                while i < n
                    invariant
                        i <= n,
                        n == s@.len(),
                        canon.len() == n,
                        out@.len() == i,
                        forall|j: int| 0 <= j < i ==> out@[j] as int == canon[j],
                        forall|k: int| 0 <= k < canon.len() ==> canon[k] == s@[k] as int,
                    decreases n - i,
                {
                    let c = s[i];
                    out.push(c);
                    i += 1;
                }
            }
        },
        SampleBlock::U16(s) => {
            if stereo {
                let n = s.len() / 2;
                let mut i: usize = 0;
                while i < n
                    invariant
                        i <= n,
                        n == s@.len() / 2,
                        s@.len() <= usize::MAX,
                        canon.len() == n,
                        out@.len() == i,
                        forall|j: int| 0 <= j < i ==> out@[j] as int == canon[j],
                        forall|k: int| 0 <= k < canon.len() ==> canon[k] == frame_avg(
                            u16_to_canon(s@[2 * k] as int),
                            u16_to_canon(s@[2 * k + 1] as int),
                        ),
                    decreases n - i,
                {
                    proof {
                        assert(2 * (i as int) + 1 < s@.len());
                    }
                    let c = convert_u16_frame(s[2 * i], s[2 * i + 1]);
                    out.push(c);
                    i += 1;
                }
            } else {
                let n = s.len();
                let mut i: usize = 0;
                while i < n
                    invariant
                        i <= n,
                        n == s@.len(),
                        canon.len() == n,
                        out@.len() == i,
                        forall|j: int| 0 <= j < i ==> out@[j] as int == canon[j],
                        forall|k: int| 0 <= k < canon.len() ==> canon[k] == u16_to_canon(s@[k] as int),
                    decreases n - i,
                {
                    let c = convert_u16_sample(s[i]);
                    out.push(c);
                    i += 1;
                }
            }
        },
    }
    out
}

/// A block of zero-amplitude samples converts to canonical zeros, whatever
/// the native encoding: sample for sample without downmix, frame for frame
/// with it.
pub proof fn lemma_zero_block_converts_to_zeros(b: SampleBlock)
    requires
        b.is_zero_valued(),
    ensures
        b.canon(false).len() == b.sample_count(),
        forall|i: int| 0 <= i < b.canon(false).len() ==> b.canon(false)[i] == 0,
        b.canon(true).len() == b.sample_count() / 2,
        forall|i: int| 0 <= i < b.canon(true).len() ==> b.canon(true)[i] == 0,
{
    assert forall|i: int| 0 <= i < b.canon(false).len() implies b.canon(false)[i] == 0 by {
        match b {
            SampleBlock::F32(s) => assert(b.canon(false)[i] == fx_to_canon(s@[i] as int)),
            SampleBlock::I16(s) => assert(b.canon(false)[i] == s@[i] as int),
            SampleBlock::U16(s) => assert(b.canon(false)[i] == u16_to_canon(s@[i] as int)),
        }
    }
    assert forall|i: int| 0 <= i < b.canon(true).len() implies b.canon(true)[i] == 0 by {
        match b {
            SampleBlock::F32(s) => {
                assert(s@[2 * i] == 0 && s@[2 * i + 1] == 0);
            },
            SampleBlock::I16(s) => {
                assert(s@[2 * i] == 0 && s@[2 * i + 1] == 0);
            },
            SampleBlock::U16(s) => {
                assert(s@[2 * i] == 32768 && s@[2 * i + 1] == 32768);
            },
        }
    }
}

/// Float conversion clamps before scaling: amplitude 1.0 (and anything
/// above) maps to the maximum canonical magnitude, -1.0 (and anything below)
/// to its negation, and every input converts as its clamped image does.
pub proof fn lemma_f32_full_scale(v: int)
    ensures
        v >= 65536 ==> fx_to_canon(v) == 32767,
        v <= -65536 ==> fx_to_canon(v) == -32767,
        fx_to_canon(v) == fx_to_canon(clamp_unit(v)),
{
}

/// Downmix cancellation: a frame whose channels are opposite averages to
/// silence, for every amplitude, and converts to the canonical zero.
pub proof fn lemma_downmix_cancellation(k: int)
    ensures
        frame_avg(k, -k) == 0,
        fx_to_canon(frame_avg(k, -k)) == 0,
{
}

/// Downmix identity on equal channels: a frame whose channels agree averages
/// to exactly that value, for every amplitude.
pub proof fn lemma_downmix_equal_channels(k: int)
    ensures
        frame_avg(k, k) == k,
{
}

/// Append the two little-endian bytes of one canonical sample.
fn push_le16(out: &mut Vec<u8>, s: i16)
    ensures
        final(out)@ == old(out)@ + le16(s as int),
{
    let u: u16 = if s >= 0 {
        s as u16
    } else {
        ((s as i32) + 65536) as u16
    };
    assert(u as int == to_u16_bits(s as int));
    out.push((u % 256) as u8);
    out.push((u / 256) as u8);
    assert(final(out)@ =~= old(out)@ + le16(s as int));
}

/// Encode canonical samples as concatenated 16-bit little-endian bytes.
pub fn encode_canonical(samples: &Vec<i16>) -> (out: Vec<u8>)
    ensures
        out@ == le_bytes_of_canon(samples@.map(|i: int, v: i16| v as int)),
{
    let ghost cs = samples@.map(|i: int, v: i16| v as int);
    let mut out: Vec<u8> = Vec::new();
    let n = samples.len();
    let mut i: usize = 0;
    proof {
        assert(cs.take(0) =~= Seq::<int>::empty());
    }
    while i < n
        invariant
            i <= n,
            n == samples@.len(),
            cs == samples@.map(|i: int, v: i16| v as int),
            cs.len() == n,
            out@ == le_bytes_of_canon(cs.take(i as int)),
        decreases n - i,
    {
        proof {
            lemma_le_bytes_snoc(cs, i as int);
        }
        push_le16(&mut out, samples[i]);
        i += 1;
    }
    proof {
        assert(cs.take(n as int) =~= cs);
    }
    out
}

/// The whole pipeline for one device-delivered block: downmix if the session
/// captured stereo, convert each sample to canonical 16-bit form, and encode
/// the result little-endian. This is exactly the work the real-time callback
/// does per block.
pub fn convert_block(block: &SampleBlock, channels: u16) -> (out: Vec<u8>)
    ensures
        out@ == le_bytes_of_canon(block.canon(channels == 2)),
        out@.len() == 2 * block.canon(channels == 2).len(),
{
    let samples = canonical_samples(block, channels);
    let out = encode_canonical(&samples);
    proof {
        assert(samples@.map(|i: int, v: i16| v as int) =~= block.canon(channels == 2));
        lemma_le_bytes_len(block.canon(channels == 2));
    }
    out
}

} // verus!

//! Per-channel predictive decoding.
//!
//! A `Decoder` carries the two filter coefficients derived from the stream's
//! highpass cutoff together with the last two reconstructed samples of its
//! channel.  Coefficients are held in 4096-scale fixed point so that every
//! step of the derivation and of the per-sample reconstruction is integer
//! arithmetic with a proved result; the square root and cosine the derivation
//! needs are computed here in the same fixed point.

use vstd::prelude::*;

verus! {

/// floor(sqrt(2) * 4096): all values here are in 4096-scale fixed point.
pub const SQRT2_FP: i64 = 5792;

/// SQRT2_FP - 4096, the constant `b = sqrt(2) - 1` of the derivation.
pub const B_FP: i64 = 1696;

/// floor(2 * pi * 4096).
pub const TWO_PI_FP: u64 = 25735;

/// floor(pi * 4096).
pub const PI_FP: u64 = 12867;

/// floor(pi / 2 * 4096).
pub const HALF_PI_FP: u64 = 6433;

/// `r` is the integer square root of `x`.
pub open spec fn is_isqrt(x: int, r: int) -> bool {
    &&& 0 <= r
    &&& r * r <= x
    &&& x < (r + 1) * (r + 1)
}

/// The integer square root, as a value: `is_isqrt` has at most one solution.
pub open spec fn spec_isqrt(x: int) -> int {
    choose|r: int| is_isqrt(x, r)
}

/// Two integer square roots of the same value are equal.
pub proof fn lemma_isqrt_unique(x: int, a: int, b: int)
    requires
        is_isqrt(x, a),
        is_isqrt(x, b),
    ensures
        a == b,
{
    assert(a == b) by (nonlinear_arith)
        requires
            0 <= a,
            0 <= b,
            a * a <= x,
            x < (a + 1) * (a + 1),
            b * b <= x,
            x < (b + 1) * (b + 1),
    ;
}

/// Integer square root by search; the bound on `x` keeps the search short.
fn isqrt(x: u64) -> (r: u64)
    requires
        x <= 0x1_0000_0000,
    ensures
        is_isqrt(x as int, r as int),
        r == spec_isqrt(x as int),
{
    let mut r: u64 = 0;
    loop
        invariant
            x <= 0x1_0000_0000,
            r * r <= x,
            r <= 0x1_0000,
        ensures
            r * r <= x,
            x < (r + 1) * (r + 1),
        decreases 0x1_0000 - r,
    {
        proof {
            assert((r + 1) * (r + 1) <= 0x1_0001 * 0x1_0001) by (nonlinear_arith)
                requires
                    0 <= r <= 0x1_0000,
            ;
        }
        if (r + 1) * (r + 1) > x {
            break;
        }
        assert(r + 1 <= 0x1_0000) by (nonlinear_arith)
            requires
                (r + 1) * (r + 1) <= 0x1_0000_0000,
                0 <= r,
        ;
        r = r + 1;
    }
    proof {
        assert(is_isqrt(x as int, r as int));
        lemma_isqrt_unique(x as int, r as int, spec_isqrt(x as int));
    }
    r
}

/// The clamped fixed-point cosine polynomial on the first quadrant.
pub open spec fn spec_cos_poly(y: int) -> int {
    let t: int = y * y / 4096;
    let c: int = 4096 - t / 2 + t * t / 98304 - t * t * t / 12079595520
        + t * t * t * t / 2770969291653120;
    if c > 4096 {
        4096
    } else if c < -4096 {
        -4096
    } else {
        c
    }
}

/// Fixed-point cosine of an angle in 4096-scale radians: the angle is reduced
/// modulo 2*pi and folded into the first quadrant, where a truncated series
/// evaluates it.
pub open spec fn spec_fixed_cos(x: int) -> int {
    let r: int = x % 25735;
    let folded: int = if r > 12867 {
        25735 - r
    } else {
        r
    };
    if folded > 6433 {
        -spec_cos_poly(12867 - folded)
    } else {
        spec_cos_poly(folded)
    }
}

/// Evaluates the cosine polynomial on `y` in [0, HALF_PI_FP + 1).
fn cos_poly(y: u64) -> (c: i64)
    requires
        y <= 6434,
    ensures
        c == spec_cos_poly(y as int),
        -4096 <= c <= 4096,
{
    assert(y * y <= 6434 * 6434) by (nonlinear_arith)
        requires
            0 <= y <= 6434,
    ;
    let t: i64 = ((y * y) / 4096) as i64;
    assert(t <= 10106);
    assert(t * t <= 10106 * 10106) by (nonlinear_arith)
        requires
            0 <= t <= 10106,
    ;
    let t2: i64 = t * t;
    assert(t2 * t <= 102131236 * 10106) by (nonlinear_arith)
        requires
            0 <= t2 <= 102131236,
            0 <= t <= 10106,
    ;
    let t3: i64 = t2 * t;
    assert(t3 * t <= 1032138271016 * 10106) by (nonlinear_arith)
        requires
            0 <= t3 <= 1032138271016,
            0 <= t <= 10106,
    ;
    let t4: i64 = t3 * t;
    let c: i64 = 4096 - t / 2 + t2 / 98304 - t3 / 12079595520 + t4 / 2770969291653120;
    if c > 4096 {
        4096
    } else if c < -4096 {
        -4096
    } else {
        c
    }
}

/// Fixed-point cosine; see `spec_fixed_cos`.
fn fixed_cos(x: u64) -> (c: i64)
    ensures
        c == spec_fixed_cos(x as int),
        -4096 <= c <= 4096,
{
    let r: u64 = x % TWO_PI_FP;
    let folded: u64 = if r > PI_FP {
        TWO_PI_FP - r
    } else {
        r
    };
    if folded > HALF_PI_FP {
        let v: i64 = cos_poly(PI_FP - folded);
        -v
    } else {
        cos_poly(folded)
    }
}

/// The 4096-scale value `c` of the derivation: with `f = cutoff / rate`,
/// `a = sqrt(2) - cos(2*pi*f)` and `b = sqrt(2) - 1`, this is
/// `(a - sqrt((a + b) * (a - b))) / b`, all in fixed point.  A zero sample
/// rate yields zero, so that the prediction it feeds is zero.
pub open spec fn spec_c_fp(hf: int, sr: int) -> int {
    if sr == 0 {
        0
    } else {
        let factor: int = hf * 4096 / sr;
        let x: int = 25735 * factor / 4096;
        let a: int = 5792 - spec_fixed_cos(x);
        let s: int = spec_isqrt((a + 1696) * (a - 1696));
        (a - s) * 4096 / 1696
    }
}

/// The first filter coefficient, `2 * c`, in 4096-scale fixed point.
pub open spec fn spec_coefficient_1(hf: int, sr: int) -> int {
    2 * spec_c_fp(hf, sr)
}

/// The second filter coefficient, `-c * c`, in 4096-scale fixed point.
pub open spec fn spec_coefficient_2(hf: int, sr: int) -> int {
    -(spec_c_fp(hf, sr) * spec_c_fp(hf, sr) / 4096)
}

/// Derives both filter coefficients from the highpass cutoff and the sample
/// rate; a pure function of its two arguments.
pub fn derive_coefficients(highpass_frequency: u32, sample_rate: u32) -> (c: (i64, i64))
    ensures
        c.0 == spec_coefficient_1(highpass_frequency as int, sample_rate as int),
        c.1 == spec_coefficient_2(highpass_frequency as int, sample_rate as int),
        0 <= c.0 <= 8192,
        -4096 <= c.1 <= 0,
{
    if sample_rate == 0 {
        return (0, 0);
    }
    let factor: u64 = ((highpass_frequency as u64) * 4096) / (sample_rate as u64);
    let x: u64 = (25735 * factor) / 4096;
    let cosv: i64 = fixed_cos(x);
    let a: i64 = SQRT2_FP - cosv;
    assert(1696 <= a <= 9888);
    assert((a + 1696) * (a - 1696) <= 0x1_0000_0000) by (nonlinear_arith)
        requires
            1696 <= a <= 9888,
    ;
    assert(0 <= (a + 1696) * (a - 1696)) by (nonlinear_arith)
        requires
            1696 <= a,
    ;
    let prod: i64 = (a + B_FP) * (a - B_FP);
    let s: u64 = isqrt(prod as u64);
    assert(s <= 0x1_0000) by {
        assert(s * s <= 0x1_0000_0000 && s > 0x1_0000 ==> false) by (nonlinear_arith);
    }
    let si: i64 = s as i64;
    // The root never exceeds `a` and never falls short of `a - b`.
    assert(si <= a) by (nonlinear_arith)
        requires
            0 <= si,
            1696 <= a,
            si * si <= (a + 1696) * (a - 1696),
    ;
    assert(a - 1696 <= si) by (nonlinear_arith)
        requires
            0 <= si,
            1696 <= a,
            (a + 1696) * (a - 1696) < (si + 1) * (si + 1),
    ;
    let c_fp: i64 = ((a - si) * 4096) / B_FP;
    assert(0 <= c_fp <= 4096);
    let c1: i64 = 2 * c_fp;
    assert(c_fp * c_fp <= 4096 * 4096) by (nonlinear_arith)
        requires
            0 <= c_fp <= 4096,
    ;
    let c2: i64 = -((c_fp * c_fp) / 4096);
    (c1, c2)
}

/// The state of one channel of the predictive filter: the two derived
/// coefficients, fixed for the session, and the channel's last two
/// reconstructed samples.  Channels never share history.
#[derive(Clone, Copy, Debug)]
pub struct Decoder {
    pub coefficient_1: i64,
    pub coefficient_2: i64,
    pub previous_sample_1: i32,
    pub previous_sample_2: i32,
}

/// Division by 4096 truncating toward zero, as the reconstruction uses it.
pub open spec fn tdiv_4096(n: int) -> int {
    if n >= 0 {
        n / 4096
    } else {
        -((-n) / 4096)
    }
}

/// Sign-extends a 4-bit two's-complement value into [-8, 7].
pub open spec fn spec_sign_extend(sample: int) -> int {
    if sample >= 8 {
        sample - 16
    } else {
        sample
    }
}

/// The predicted sample: the fixed-point combination of the channel's two
/// previous samples, truncated to an integer.
pub open spec fn spec_prediction(d: Decoder) -> int {
    tdiv_4096(d.coefficient_1 * d.previous_sample_1 + d.coefficient_2 * d.previous_sample_2)
}

/// Clamps a reconstructed sample.  The clamp is deliberately asymmetric:
/// values above 32767 become 32767, values below -32768 become -32767, and
/// -32768 itself passes through.
pub open spec fn spec_clamp(v: int) -> int {
    if v > 32767 {
        32767
    } else if v < -32768 {
        -32767
    } else {
        v
    }
}

/// The value one decoded sample takes: nibble times scale plus prediction,
/// clamped.
pub open spec fn spec_decoded_value(d: Decoder, sample: int, scale: int) -> int {
    spec_clamp(spec_sign_extend(sample) * scale + spec_prediction(d))
}

/// The decoder state after one sample: the history shifts, taking in the
/// clamped value; the coefficients stay.
pub open spec fn spec_decoder_after(d: Decoder, sample: int, scale: int) -> Decoder {
    Decoder {
        coefficient_1: d.coefficient_1,
        coefficient_2: d.coefficient_2,
        previous_sample_1: spec_decoded_value(d, sample, scale) as i32,
        previous_sample_2: d.previous_sample_1,
    }
}

/// A freshly constructed decoder: derived coefficients, zero history.
pub open spec fn spec_new_decoder(hf: int, sr: int) -> Decoder {
    Decoder {
        coefficient_1: spec_coefficient_1(hf, sr) as i64,
        coefficient_2: spec_coefficient_2(hf, sr) as i64,
        previous_sample_1: 0,
        previous_sample_2: 0,
    }
}

impl Decoder {
    /// The coefficients lie in the range the derivation guarantees and the
    /// history lies within the clamp bound.
    pub open spec fn wf(self) -> bool {
        &&& 0 <= self.coefficient_1 <= 8192
        &&& -4096 <= self.coefficient_2 <= 0
        &&& -32768 <= self.previous_sample_1 <= 32767
        &&& -32768 <= self.previous_sample_2 <= 32767
    }

    /// Builds the decoder for one channel from the stream's highpass cutoff
    /// and sample rate, with history initialized to zero.
    pub fn new(highpass_frequency: u32, sample_rate: u32) -> (d: Decoder)
        ensures
            d == spec_new_decoder(highpass_frequency as int, sample_rate as int),
            d.wf(),
    {
        let (c1, c2): (i64, i64) = derive_coefficients(highpass_frequency, sample_rate);
        Decoder { coefficient_1: c1, coefficient_2: c2, previous_sample_1: 0, previous_sample_2: 0 }
    }

    /// Reconstructs one sample from a 4-bit coded value and the block's
    /// scale, updating the channel history with the clamped result.
    pub fn decode_sample(&mut self, sample: i32, scale: i32) -> (r: i32)
        requires
            old(self).wf(),
            0 <= sample < 16,
            0 <= scale <= 0xFFFF,
        ensures
            r == spec_decoded_value(*old(self), sample as int, scale as int),
            *final(self) == spec_decoder_after(*old(self), sample as int, scale as int),
            final(self).wf(),
            -32768 <= r <= 32767,
    {
        let s: i32 = if sample >= 8 {
            sample - 16
        } else {
            sample
        };
        assert(self.coefficient_1 * self.previous_sample_1 <= 8192 * 32767
            && self.coefficient_1 * self.previous_sample_1 >= 8192 * -32768) by (nonlinear_arith)
            requires
                0 <= self.coefficient_1 <= 8192,
                -32768 <= self.previous_sample_1 <= 32767,
        ;
        assert(self.coefficient_2 * self.previous_sample_2 <= 4096 * 32768
            && self.coefficient_2 * self.previous_sample_2 >= 4096 * -32767) by (nonlinear_arith)
            requires
                -4096 <= self.coefficient_2 <= 0,
                -32768 <= self.previous_sample_2 <= 32767,
        ;
        let num: i64 = self.coefficient_1 * (self.previous_sample_1 as i64) + self.coefficient_2
            * (self.previous_sample_2 as i64);
        let (mag, num_neg): (u64, bool) = if num >= 0 {
            (num as u64, false)
        } else {
            ((-num) as u64, true)
        };
        let q: u64 = mag / 4096;
        let prediction: i64 = if num_neg {
            -(q as i64)
        } else {
            q as i64
        };
        assert(prediction == spec_prediction(*old(self)));
        assert(s * scale <= 8 * 0xFFFF && s * scale >= -8 * 0xFFFF) by (nonlinear_arith)
            requires
                -8 <= s <= 7,
                0 <= scale <= 0xFFFF,
        ;
        let decoded: i64 = (s as i64) * (scale as i64) + prediction;
        let clamped: i64 = if decoded > 32767 {
            32767
        } else if decoded < -32768 {
            -32767
        } else {
            decoded
        };
        self.previous_sample_2 = self.previous_sample_1;
        self.previous_sample_1 = clamped as i32;
        clamped as i32
    }
}

/// Coefficient derivation is pure: two decoders built from the same cutoff
/// and sample rate are equal in every field.
pub proof fn lemma_derivation_deterministic(hf: int, sr: int, d1: Decoder, d2: Decoder)
    requires
        d1 == spec_new_decoder(hf, sr),
        d2 == spec_new_decoder(hf, sr),
    ensures
        d1 == d2,
{
}

} // verus!

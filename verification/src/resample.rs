//! Linear-interpolation resampling of a mono sample stream from an arbitrary
//! source rate to the canonical 16 kHz rate.
//!
//! For output index `i` the fractional source position is `i * rate / 16000`;
//! the output sample interpolates between the samples at the floor and ceil
//! positions (ceil clamped to the last valid index).  The output length is
//! `floor(len * 16000 / rate)`.  There is intentionally no anti-aliasing
//! filter: the supported native rates are close to 16 kHz already.

use vstd::prelude::*;

verus! {

use vstd::arithmetic::div_mod::{
    lemma_div_by_multiple,
    lemma_div_is_ordered,
    lemma_div_pos_is_pos,
    lemma_fundamental_div_mod,
    lemma_mod_division_less_than_divisor,
    lemma_multiply_divide_lt,
};
use vstd::arithmetic::mul::lemma_mul_inequality;

/// Number of output samples when `len` source samples at `rate` Hz are
/// brought to 16 kHz.
pub open spec fn resampled_len(len: int, rate: int) -> int {
    len * 16000 / rate
}

/// A sample shifted into the non-negative range `[0, 65535]`.
pub open spec fn offset16(s: i16) -> int {
    s + 32768
}

/// The value of output sample `i` (before the shift back into i16 range is
/// undone): source position `i * rate / 16000` with remainder `rem`,
/// interpolated linearly between the floor and clamped-ceil samples.
pub open spec fn resampled_at(s: Seq<i16>, rate: int, i: int) -> int {
    let num = i * rate;
    let idx = num / 16000;
    let rem = num % 16000;
    let idx_ceil = if idx + 1 < s.len() {
        idx + 1
    } else {
        s.len() - 1
    };
    (offset16(s[idx]) * (16000 - rem) + offset16(s[idx_ceil]) * rem) / 16000 - 32768
}

/// The full resampled stream.
pub open spec fn spec_resample(s: Seq<i16>, rate: int) -> Seq<i16> {
    Seq::new(
        resampled_len(s.len() as int, rate) as nat,
        |i: int| resampled_at(s, rate, i) as i16,
    )
}

/// For `i` below the output length, the floor source index stays below the
/// input length.
proof fn lemma_source_index_in_range(len: int, rate: int, i: int)
    requires
        rate >= 1,
        0 <= i < resampled_len(len, rate),
    ensures
        i * rate < len * 16000,
        0 <= i * rate / 16000 < len,
{
    let n_out = resampled_len(len, rate);
    lemma_fundamental_div_mod(len * 16000, rate);
    assert(rate * n_out <= len * 16000);
    lemma_mul_inequality(i + 1, n_out, rate);
    assert((i + 1) * rate == i * rate + rate) by (nonlinear_arith);
    assert(n_out * rate == rate * n_out) by (nonlinear_arith);
    assert(i * rate < len * 16000);
    assert(i * rate >= 0) by (nonlinear_arith)
        requires i >= 0, rate >= 1;
    lemma_multiply_divide_lt(i * rate, 16000, len);
    lemma_div_pos_is_pos(i * rate, 16000);
}

/// The interpolated value lies in `[0, 65535]` when both end samples are
/// shifted i16 values.
proof fn lemma_interpolation_bounds(a: int, b: int, rem: int)
    requires
        0 <= a <= 65535,
        0 <= b <= 65535,
        0 <= rem < 16000,
    ensures
        0 <= (a * (16000 - rem) + b * rem) / 16000 <= 65535,
{
    assert(0 <= a * (16000 - rem) + b * rem <= 65535 * 16000) by (nonlinear_arith)
        requires 0 <= a <= 65535, 0 <= b <= 65535, 0 <= rem < 16000;
    lemma_div_pos_is_pos(a * (16000 - rem) + b * rem, 16000);
    lemma_div_is_ordered(a * (16000 - rem) + b * rem, 65535int * 16000, 16000);
    lemma_div_by_multiple(65535, 16000);
}

/// Resample a mono stream from `from_rate` Hz to 16 kHz by linear
/// interpolation.  Produces exactly `floor(len * 16000 / from_rate)` samples.
pub fn resample_to_16k(samples: &Vec<i16>, from_rate: u32) -> (r: Vec<i16>)
    requires
        from_rate >= 1,
        resampled_len(samples@.len() as int, from_rate as int) <= usize::MAX,
    ensures
        r@ == spec_resample(samples@, from_rate as int),
        r@.len() == resampled_len(samples@.len() as int, from_rate as int),
{
    let len: usize = samples.len();
    let ghost rate = from_rate as int;
    let n_out_wide: u128 = (len as u128) * 16000 / (from_rate as u128);
    let n_out: usize = n_out_wide as usize;
    let mut out: Vec<i16> = Vec::new();
    let mut i: usize = 0;
    proof {
        assert(out@ =~= spec_resample(samples@, rate).subrange(0, 0));
    }
    while i < n_out
        invariant
            rate == from_rate as int,
            1 <= rate <= u32::MAX,
            len == samples@.len(),
            n_out == resampled_len(len as int, rate),
            i <= n_out,
            out@ =~= spec_resample(samples@, rate).subrange(0, i as int),
        decreases n_out - i,
    {
        proof {
            lemma_source_index_in_range(len as int, rate, i as int);
            lemma_mod_division_less_than_divisor((i as int) * rate, 16000);
        }
        let num: u128 = (i as u128) * (from_rate as u128);
        let idx: usize = (num / 16000) as usize;
        let rem: u64 = (num % 16000) as u64;
        let idx_ceil: usize = if idx + 1 < len {
            idx + 1
        } else {
            len - 1
        };
        let a: u64 = (samples[idx] as i64 + 32768) as u64;
        let b: u64 = (samples[idx_ceil] as i64 + 32768) as u64;
        proof {
            lemma_interpolation_bounds(a as int, b as int, rem as int);
            assert(a * (16000 - rem) + b * rem <= 65535 * 16000) by (nonlinear_arith)
                requires 0 <= a <= 65535, 0 <= b <= 65535, 0 <= rem < 16000;
        }
        let val: u64 = (a * (16000 - rem) + b * rem) / 16000;
        let sample: i16 = (val as i64 - 32768) as i16;
        out.push(sample);
        proof {
            assert(sample == resampled_at(samples@, rate, i as int) as i16);
            assert(out@ =~= spec_resample(samples@, rate).subrange(0, i + 1));
        }
        i = i + 1;
    }
    proof {
        assert(spec_resample(samples@, rate).subrange(0, n_out as int)
            == spec_resample(samples@, rate));
    }
    out
}

/// Law: resampling a constant signal reproduces that constant exactly, at
/// every supported rate (indeed at every positive rate).
pub proof fn lemma_resample_constant(s: Seq<i16>, rate: int, c: i16)
    requires
        rate >= 1,
        forall|k: int| 0 <= k < s.len() ==> s[k] == c,
    ensures
        forall|i: int|
            0 <= i < spec_resample(s, rate).len() ==> spec_resample(s, rate)[i] == c,
{
    assert forall|i: int|
        0 <= i < spec_resample(s, rate).len() implies spec_resample(s, rate)[i] == c by {
        lemma_source_index_in_range(s.len() as int, rate, i);
        lemma_mod_division_less_than_divisor(i * rate, 16000);
        let num = i * rate;
        let rem = num % 16000;
        let u = offset16(c);
        assert(u * (16000 - rem) + u * rem == u * 16000) by (nonlinear_arith);
        assert(u * 16000 == 16000 * u) by (nonlinear_arith);
        vstd::arithmetic::div_mod::lemma_div_multiples_vanish(u, 16000);
        assert(resampled_at(s, rate, i) == c);
    }
}

/// Law: resampling from 16 kHz is the identity.
pub proof fn lemma_resample_identity(s: Seq<i16>)
    ensures
        spec_resample(s, 16000) == s,
{
    lemma_div_by_multiple(s.len() as int, 16000);
    assert(s.len() as int * 16000 / 16000 == s.len() as int);
    assert forall|i: int| 0 <= i < s.len() implies spec_resample(s, 16000)[i] == s[i] by {
        let num = i * 16000;
        lemma_div_by_multiple(i, 16000);
        vstd::arithmetic::div_mod::lemma_mod_multiples_basic(i, 16000);
        assert(num / 16000 == i);
        assert(num % 16000 == 0);
        let u = offset16(s[i]);
        assert(u * (16000 - 0) == u * 16000) by (nonlinear_arith);
        assert(u * 16000 == 16000 * u) by (nonlinear_arith);
        vstd::arithmetic::div_mod::lemma_div_multiples_vanish(u, 16000);
        let idx_ceil = if i + 1 < s.len() { i + 1 } else { s.len() - 1 };
        assert(offset16(s[idx_ceil]) * 0 == 0) by (nonlinear_arith);
        assert(resampled_at(s, 16000, i) == s[i]);
    }
    assert(spec_resample(s, 16000) =~= s);
}

} // verus!

//! Conversion of interleaved multi-channel hardware blocks into the
//! library's canonical mono sample stream.
//!
//! A hardware block holds `channels` interleaved streams of 16-bit samples.
//! Each group of `channels` consecutive samples is averaged (rounding down)
//! into one mono sample.  A trailing partial group is still divided by the
//! full channel count, mirroring the capture callback's behaviour.

use vstd::prelude::*;

verus! {

/// Sum of a sequence of samples, as an unbounded integer.
pub open spec fn sample_sum(s: Seq<i16>) -> int
    decreases s.len(),
{
    if s.len() == 0 {
        0
    } else {
        sample_sum(s.drop_last()) + s.last()
    }
}

/// The arithmetic mean (rounded toward negative infinity) of one interleaved
/// group, always divided by the full channel count.
pub open spec fn group_mean(group: Seq<i16>, channels: int) -> int {
    sample_sum(group) / channels
}

/// The interleaved group that produces mono sample `k`: samples
/// `k * channels` up to (exclusive) `(k + 1) * channels`, clipped to the
/// block's end.
pub open spec fn group_at(block: Seq<i16>, channels: int, k: int) -> Seq<i16> {
    block.subrange(
        k * channels,
        if (k + 1) * channels <= block.len() {
            (k + 1) * channels
        } else {
            block.len() as int
        },
    )
}

/// Number of mono samples produced from a block: one per (possibly partial)
/// group of `channels` samples.
pub open spec fn mono_len(block_len: int, channels: int) -> int {
    (block_len + channels - 1) / channels
}

/// The mono stream obtained by averaging each interleaved group.
pub open spec fn spec_mix_to_mono(block: Seq<i16>, channels: int) -> Seq<i16> {
    Seq::new(
        mono_len(block.len() as int, channels) as nat,
        |k: int| group_mean(group_at(block, channels, k), channels) as i16,
    )
}

/// Every sample of `s` lies within the i16 range, so the sum is bounded by
/// `len * 32768` on either side.
proof fn lemma_sample_sum_bounds(s: Seq<i16>)
    ensures
        -32768 * s.len() <= sample_sum(s) <= 32767 * s.len(),
    decreases s.len(),
{
    if s.len() > 0 {
        lemma_sample_sum_bounds(s.drop_last());
        assert(-32768 * s.len() <= -32768 * (s.len() - 1) + -32768) by (nonlinear_arith);
        assert(32767 * (s.len() - 1) + 32767 <= 32767 * s.len()) by (nonlinear_arith);
    }
}

/// A sum over at most `channels` samples divided by `channels` stays within
/// the i16 range.
proof fn lemma_group_mean_fits(group: Seq<i16>, channels: int)
    requires
        1 <= channels,
        group.len() <= channels,
    ensures
        -32768 <= group_mean(group, channels) <= 32767,
{
    lemma_sample_sum_bounds(group);
    assert(-32768 * channels <= -32768 * group.len()) by (nonlinear_arith)
        requires group.len() <= channels;
    assert(32767 * group.len() <= 32767 * channels) by (nonlinear_arith)
        requires group.len() <= channels;
    vstd::arithmetic::div_mod::lemma_div_multiples_vanish(-32768, channels);
    vstd::arithmetic::div_mod::lemma_div_multiples_vanish(32767, channels);
    vstd::arithmetic::div_mod::lemma_div_is_ordered(-32768 * channels, sample_sum(group), channels);
    vstd::arithmetic::div_mod::lemma_div_is_ordered(sample_sum(group), 32767 * channels, channels);
    assert(channels * -32768 == -32768 * channels) by (nonlinear_arith);
    assert(channels * 32767 == 32767 * channels) by (nonlinear_arith);
}

/// `m` full groups take `m * c` samples: `mono_len` of that is `m`, and one
/// more (possibly partial) group of `glen` samples raises it to `m + 1`.
proof fn lemma_mono_len_step(m: int, glen: int, c: int)
    requires
        0 <= m,
        1 <= glen <= c,
    ensures
        mono_len(m * c, c) == m,
        mono_len(m * c + glen, c) == m + 1,
{
    assert(m * c + c - 1 == c * m + (c - 1)) by (nonlinear_arith);
    vstd::arithmetic::div_mod::lemma_div_multiples_vanish_fancy(m, (c - 1) as int, c);
    assert(m * c + glen + c - 1 == c * (m + 1) + (glen - 1)) by (nonlinear_arith);
    vstd::arithmetic::div_mod::lemma_div_multiples_vanish_fancy(m + 1, (glen - 1) as int, c);
}

/// Mix an interleaved multi-channel block down to mono by averaging each
/// group of `channels` samples (rounding toward negative infinity).
///
/// A block whose length is not a multiple of `channels` ends with a partial
/// group, which is still divided by the full channel count.
pub fn mix_to_mono(block: &Vec<i16>, channels: u16) -> (r: Vec<i16>)
    requires
        channels >= 1,
    ensures
        r@ == spec_mix_to_mono(block@, channels as int),
{
    let c: usize = channels as usize;
    let n: usize = block.len();
    let mut out: Vec<i16> = Vec::new();
    let mut start: usize = 0;
    let ghost cint = channels as int;
    proof {
        lemma_mono_len_step(0, 1, cint);
        assert(spec_mix_to_mono(block@.subrange(0, 0), cint) =~= out@);
    }
    while start < n
        invariant
            1 <= c <= 65535,
            c == channels as usize,
            cint == channels as int,
            n == block@.len(),
            start <= n,
            start == out@.len() * c || start == n,
            out@ == spec_mix_to_mono(block@.subrange(0, start as int), cint),
        decreases n - start,
    {
        let stop: usize = if n - start >= c {
            start + c
        } else {
            n
        };
        let ghost m = out@.len() as int;
        let ghost glen = stop - start;
        proof {
            assert(start == m * c);
            assert(1 <= glen <= cint);
        }
        // Sum the group in 64-bit arithmetic; |sum| <= 65535 * 32768 < 2^31.
        let mut sum: i64 = 0;
        let mut j: usize = start;
        while j < stop
            invariant
                start <= j <= stop <= n,
                n == block@.len(),
                stop - start <= c <= 65535,
                sum == sample_sum(block@.subrange(start as int, j as int)),
                -32768 * (j - start) <= sum <= 32767 * (j - start),
            decreases stop - j,
        {
            proof {
                assert(block@.subrange(start as int, j + 1 as int).drop_last()
                    == block@.subrange(start as int, j as int));
                assert(-32768 * (j + 1 - start) <= sum + block@[j as int] <= 32767 * (j + 1 - start))
                    by (nonlinear_arith)
                    requires
                        -32768 * (j - start) <= sum <= 32767 * (j - start),
                        -32768 <= block@[j as int] <= 32767;
            }
            sum = sum + (block[j] as i64);
            j = j + 1;
        }
        let ghost group = block@.subrange(start as int, stop as int);
        proof {
            lemma_group_mean_fits(group, cint);
        }
        // Shift into non-negative territory so that the division is unsigned;
        // the shift is an exact multiple of the divisor, so it cancels.
        let shifted: u64 = (sum + 32768 * (c as i64)) as u64;
        let q: u64 = shifted / (c as u64);
        proof {
            let s = sample_sum(group);
            vstd::arithmetic::div_mod::lemma_hoist_over_denominator(s, 32768, cint as nat);
            assert((s + 32768 * cint) / cint == s / cint + 32768);
        }
        let mono: i16 = (q as i64 - 32768) as i16;
        out.push(mono);
        proof {
            let pre = block@.subrange(0, start as int);
            let post = block@.subrange(0, stop as int);
            lemma_mono_len_step(m, glen, cint);
            assert(post.len() == m * cint + glen);
            assert(mono_len(post.len() as int, cint) == m + 1);
            assert forall|k: int| 0 <= k < m + 1 implies
                out@[k] == group_mean(group_at(post, cint, k), cint) as i16 by {
                if k < m {
                    assert((k + 1) * cint <= m * cint) by (nonlinear_arith)
                        requires k + 1 <= m, cint >= 1;
                    assert(k * cint >= 0) by (nonlinear_arith)
                        requires k >= 0, cint >= 1;
                    assert(m * cint == start);
                    assert(k * cint + cint == (k + 1) * cint) by (nonlinear_arith);
                    assert((k + 1) * cint <= pre.len());
                    assert((k + 1) * cint <= post.len());
                    assert(group_at(post, cint, k) == post.subrange(k * cint, (k + 1) * cint));
                    assert(group_at(pre, cint, k) == pre.subrange(k * cint, (k + 1) * cint));
                    assert(post.subrange(k * cint, (k + 1) * cint)
                        =~= pre.subrange(k * cint, (k + 1) * cint));
                    assert(out@[k] == spec_mix_to_mono(pre, cint)[k]);
                } else {
                    assert(k == m);
                    assert(k * cint == start);
                    assert((k + 1) * cint == start + cint) by (nonlinear_arith)
                        requires k * cint == start;
                    assert(group_at(post, cint, k) =~= group);
                    assert(out@[k] == mono);
                }
            }
            assert(out@ =~= spec_mix_to_mono(post, cint));
            assert((m + 1) * cint == start + cint) by (nonlinear_arith)
                requires m * cint == start;
        }
        start = stop;
    }
    proof {
        assert(block@.subrange(0, n as int) == block@);
    }
    out
}

} // verus!

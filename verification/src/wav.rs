//! Encoding of a mono 16-bit PCM sample stream into a WAV container.
//!
//! The container is the canonical 44-byte RIFF/WAVE header (PCM format tag,
//! one channel, 16 bits per sample) followed by the samples in little-endian
//! order.  An empty sample stream still yields the full, structurally valid
//! header with a zero-length data chunk.

use vstd::prelude::*;

verus! {

/// A 16-bit value as two little-endian bytes.
pub open spec fn u16_le(v: int) -> Seq<u8> {
    seq![(v % 256) as u8, (v / 256 % 256) as u8]
}

/// A 32-bit value as four little-endian bytes.
pub open spec fn u32_le(v: int) -> Seq<u8> {
    seq![
        (v % 256) as u8,
        (v / 256 % 256) as u8,
        (v / 65536 % 256) as u8,
        (v / 16777216 % 256) as u8,
    ]
}

/// One sample as two little-endian bytes of its two's-complement encoding.
pub open spec fn sample_le(s: i16) -> Seq<u8> {
    u16_le(s as u16 as int)
}

/// The 44-byte RIFF/WAVE header for `n` mono 16-bit samples at `rate` Hz.
pub open spec fn wav_header(n: int, rate: int) -> Seq<u8> {
    seq![82u8, 73u8, 70u8, 70u8] + u32_le(36 + 2 * n)
        + seq![87u8, 65u8, 86u8, 69u8]
        + seq![102u8, 109u8, 116u8, 32u8] + u32_le(16)
        + u16_le(1)  // PCM format tag
        + u16_le(1)  // one channel
        + u32_le(rate)
        + u32_le(2 * rate)  // byte rate
        + u16_le(2)  // block align
        + u16_le(16)  // bits per sample
        + seq![100u8, 97u8, 116u8, 97u8] + u32_le(2 * n)
}

/// The data chunk: each sample in little-endian order.
pub open spec fn wav_data(samples: Seq<i16>) -> Seq<u8>
    decreases samples.len(),
{
    if samples.len() == 0 {
        Seq::empty()
    } else {
        wav_data(samples.drop_last()) + sample_le(samples.last())
    }
}

/// The complete container.
pub open spec fn spec_wav(samples: Seq<i16>, rate: int) -> Seq<u8> {
    wav_header(samples.len() as int, rate) + wav_data(samples)
}

/// The data chunk holds exactly two bytes per sample.
pub proof fn lemma_wav_data_len(samples: Seq<i16>)
    ensures
        wav_data(samples).len() == 2 * samples.len(),
    decreases samples.len(),
{
    if samples.len() > 0 {
        lemma_wav_data_len(samples.drop_last());
    }
}

/// Append a 16-bit value to `out` as two little-endian bytes.
fn push_u16_le(out: &mut Vec<u8>, v: u16)
    ensures
        final(out)@ == old(out)@ + u16_le(v as int),
{
    out.push((v % 256) as u8);
    out.push((v / 256) as u8);
    proof {
        assert(v / 256 < 256) by {
            vstd::arithmetic::div_mod::lemma_multiply_divide_lt(v as int, 256, 256);
        }
        assert(v as int / 256 % 256 == v as int / 256) by {
            vstd::arithmetic::div_mod::lemma_small_mod((v as int / 256) as nat, 256);
        }
        assert(out@ =~= old(out)@ + u16_le(v as int));
    }
}

/// Append a 32-bit value to `out` as four little-endian bytes.
fn push_u32_le(out: &mut Vec<u8>, v: u32)
    ensures
        final(out)@ == old(out)@ + u32_le(v as int),
{
    out.push((v % 256) as u8);
    out.push((v / 256 % 256) as u8);
    out.push((v / 65536 % 256) as u8);
    out.push((v / 16777216) as u8);
    proof {
        assert(v / 16777216 < 256) by {
            vstd::arithmetic::div_mod::lemma_multiply_divide_lt(v as int, 16777216, 256);
        }
        assert(v as int / 16777216 % 256 == v as int / 16777216) by {
            vstd::arithmetic::div_mod::lemma_small_mod((v as int / 16777216) as nat, 256);
        }
        assert(out@ =~= old(out)@ + u32_le(v as int));
    }
}

/// Encode mono 16-bit samples at `sample_rate` Hz as a WAV container.
///
/// The byte stream is the 44-byte header followed by one little-endian
/// 16-bit word per sample; an empty input yields just the header, whose
/// data-chunk size field is zero.
pub fn samples_to_wav(samples: &Vec<i16>, sample_rate: u32) -> (r: Vec<u8>)
    requires
        // the RIFF chunk size field is 32 bits wide
        36 + 2 * samples@.len() <= u32::MAX,
        // the byte-rate field is 32 bits wide
        2 * sample_rate <= u32::MAX,
    ensures
        r@ == spec_wav(samples@, sample_rate as int),
        r@.len() == 44 + 2 * samples@.len(),
{
    let n: usize = samples.len();
    let data_len: u32 = 2 * (n as u32);
    let mut out: Vec<u8> = Vec::new();
    out.push(82u8);
    out.push(73u8);
    out.push(70u8);
    out.push(70u8);
    push_u32_le(&mut out, 36 + data_len);
    out.push(87u8);
    out.push(65u8);
    out.push(86u8);
    out.push(69u8);
    out.push(102u8);
    out.push(109u8);
    out.push(116u8);
    out.push(32u8);
    push_u32_le(&mut out, 16);
    push_u16_le(&mut out, 1);
    push_u16_le(&mut out, 1);
    push_u32_le(&mut out, sample_rate);
    push_u32_le(&mut out, 2 * sample_rate);
    push_u16_le(&mut out, 2);
    push_u16_le(&mut out, 16);
    out.push(100u8);
    out.push(97u8);
    out.push(116u8);
    out.push(97u8);
    push_u32_le(&mut out, data_len);
    proof {
        assert(out@ =~= wav_header(n as int, sample_rate as int));
    }
    let mut i: usize = 0;
    while i < n
        invariant
            n == samples@.len(),
            i <= n,
            out@ == wav_header(n as int, sample_rate as int)
                + wav_data(samples@.subrange(0, i as int)),
        decreases n - i,
    {
        let s: u16 = samples[i] as u16;
        push_u16_le(&mut out, s);
        proof {
            let pre = samples@.subrange(0, i as int);
            let post = samples@.subrange(0, i + 1);
            assert(post.drop_last() == pre);
            assert(post.last() == samples@[i as int]);
            assert(out@ =~= wav_header(n as int, sample_rate as int) + wav_data(post));
        }
        i = i + 1;
    }
    proof {
        assert(samples@.subrange(0, n as int) == samples@);
        lemma_wav_data_len(samples@);
    }
    out
}

} // verus!

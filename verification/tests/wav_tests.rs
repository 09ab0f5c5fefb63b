use indexvoice::wav::samples_to_wav;

fn f32_to_i16(x: f32) -> i16 {
    (x.clamp(-1.0, 1.0) * 32767.0) as i16
}

#[test]
fn test_samples_to_wav() {
    let sample_rate = 16000;
    let duration_secs = 0.1;
    let num_samples = (sample_rate as f32 * duration_secs) as usize;

    let samples: Vec<i16> = (0..num_samples)
        .map(|i| {
            let t = i as f32 / sample_rate as f32;
            f32_to_i16((t * 440.0 * 2.0 * std::f32::consts::PI).sin() * 0.5)
        })
        .collect();

    let wav_bytes = samples_to_wav(&samples, sample_rate);

    assert_eq!(&wav_bytes[0..4], b"RIFF");
    assert_eq!(&wav_bytes[8..12], b"WAVE");

    println!("Generated WAV bytes length: {}", wav_bytes.len());
}

#[test]
fn test_empty_samples() {
    let wav_bytes = samples_to_wav(&vec![], 16000);
    assert!(wav_bytes.len() >= 44);
}

#[test]
fn test_empty_wav_structure() {
    // An empty sample stream still yields a structurally valid container:
    // the full 44-byte header and a zero-length data chunk.
    let wav_bytes = samples_to_wav(&vec![], 16000);
    assert_eq!(wav_bytes.len(), 44);
    assert_eq!(&wav_bytes[0..4], b"RIFF");
    // RIFF chunk size: 36 + data length.
    assert_eq!(&wav_bytes[4..8], &36u32.to_le_bytes());
    assert_eq!(&wav_bytes[8..12], b"WAVE");
    assert_eq!(&wav_bytes[12..16], b"fmt ");
    assert_eq!(&wav_bytes[16..20], &16u32.to_le_bytes());
    // PCM format tag, one channel.
    assert_eq!(&wav_bytes[20..22], &1u16.to_le_bytes());
    assert_eq!(&wav_bytes[22..24], &1u16.to_le_bytes());
    assert_eq!(&wav_bytes[24..28], &16000u32.to_le_bytes());
    // Byte rate, block align, bits per sample.
    assert_eq!(&wav_bytes[28..32], &32000u32.to_le_bytes());
    assert_eq!(&wav_bytes[32..34], &2u16.to_le_bytes());
    assert_eq!(&wav_bytes[34..36], &16u16.to_le_bytes());
    assert_eq!(&wav_bytes[36..40], b"data");
    // No sample payload.
    assert_eq!(&wav_bytes[40..44], &0u32.to_le_bytes());
}

#[test]
fn test_wav_sample_bytes_little_endian() {
    let samples: Vec<i16> = vec![1, -1, 258];
    let wav_bytes = samples_to_wav(&samples, 16000);
    assert_eq!(wav_bytes.len(), 44 + 6);
    assert_eq!(&wav_bytes[40..44], &6u32.to_le_bytes());
    assert_eq!(&wav_bytes[44..46], &1i16.to_le_bytes());
    assert_eq!(&wav_bytes[46..48], &(-1i16).to_le_bytes());
    assert_eq!(&wav_bytes[48..50], &258i16.to_le_bytes());
}

#[test]
fn test_wav_round_trip_through_hound() {
    // The produced container must agree with what the hound crate reads back.
    let samples: Vec<i16> = vec![0, 100, -100, 32767, -32768, 7];
    let wav_bytes = samples_to_wav(&samples, 44100);
    let cursor = std::io::Cursor::new(wav_bytes);
    let mut reader = hound::WavReader::new(cursor).expect("valid WAV container");
    let spec = reader.spec();
    assert_eq!(spec.channels, 1);
    assert_eq!(spec.sample_rate, 44100);
    assert_eq!(spec.bits_per_sample, 16);
    assert_eq!(spec.sample_format, hound::SampleFormat::Int);
    let decoded: Vec<i16> = reader.samples::<i16>().map(|s| s.unwrap()).collect();
    assert_eq!(decoded, samples);
}

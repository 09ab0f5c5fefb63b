use indexvoice::resample::resample_to_16k;

#[test]
fn test_resample_lengths_for_supported_rates() {
    // Output length is floor(len * 16000 / rate) for every supported rate.
    let len = 44100usize;
    let samples: Vec<i16> = vec![0; len];
    for &(rate, expected) in &[
        (16000u32, 44100usize),
        (44100, 16000),
        (48000, 14700),
        (22050, 32000),
        (8000, 88200),
    ] {
        let out = resample_to_16k(&samples, rate);
        assert_eq!(out.len(), expected, "rate {}", rate);
        assert_eq!(out.len(), len * 16000 / rate as usize);
    }
}

#[test]
fn test_resample_constant_signal() {
    // A constant signal resamples to that same constant, exactly.
    for &rate in &[16000u32, 44100, 48000, 22050, 8000] {
        for &c in &[0i16, 1000, -1000, 32767, -32768] {
            let samples: Vec<i16> = vec![c; 2000];
            let out = resample_to_16k(&samples, rate);
            assert_eq!(out.len(), 2000 * 16000 / rate as usize);
            assert!(out.iter().all(|&s| s == c), "rate {} constant {}", rate, c);
        }
    }
}

#[test]
fn test_resample_identity_at_16k() {
    let samples: Vec<i16> = (0..1000).map(|i| (i * 13 % 1001 - 500) as i16).collect();
    let out = resample_to_16k(&samples, 16000);
    assert_eq!(out, samples);
}

#[test]
fn test_resample_interpolated_values() {
    // Doubling from 8000 Hz interpolates midpoints and clamps the last index.
    let samples: Vec<i16> = vec![0, 1000];
    let out = resample_to_16k(&samples, 8000);
    assert_eq!(out, vec![0, 500, 1000, 1000]);
}

#[test]
fn test_resample_empty() {
    let samples: Vec<i16> = vec![];
    let out = resample_to_16k(&samples, 44100);
    assert!(out.is_empty());
}

#[test]
fn test_resample_shorter_than_one_output_sample() {
    // One sample at 44100 Hz yields floor(16000/44100) = 0 output samples.
    let samples: Vec<i16> = vec![1234];
    let out = resample_to_16k(&samples, 44100);
    assert!(out.is_empty());
}

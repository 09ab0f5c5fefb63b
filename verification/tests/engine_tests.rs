use indexvoice::engine::{
    pick_preferred_config, AudioRecorder, CaptureError, NegotiatedConfig, RecorderState,
    SampleFormat, SupportedConfigRange,
};

fn range(min: u32, max: u32, channels: u16, format: SampleFormat) -> SupportedConfigRange {
    SupportedConfigRange { min_sample_rate: min, max_sample_rate: max, channels, format }
}

#[test]
fn test_start_before_open_fails() {
    let mut rec = AudioRecorder::new().unwrap();
    assert_eq!(rec.start(), Err(CaptureError::NotOpen));
}

#[test]
fn test_stop_before_open_fails() {
    let mut rec = AudioRecorder::new().unwrap();
    assert_eq!(rec.stop(), Err(CaptureError::NotOpen));
}

#[test]
fn test_default_sample_rate_is_16k() {
    let rec = AudioRecorder::new().unwrap();
    assert_eq!(rec.sample_rate(), 16000);
}

#[test]
fn test_open_negotiates_and_is_idempotent() {
    let mut rec = AudioRecorder::new().unwrap();
    let cfg = NegotiatedConfig { sample_rate: 44100, channels: 2, format: SampleFormat::Int16 };
    rec.open(Some(cfg)).unwrap();
    assert_eq!(rec.sample_rate(), 44100);
    // Reopening with another configuration is a no-op.
    let other = NegotiatedConfig { sample_rate: 8000, channels: 1, format: SampleFormat::Uint8 };
    rec.open(Some(other)).unwrap();
    assert_eq!(rec.sample_rate(), 44100);
}

#[test]
fn test_record_cycle_returns_samples() {
    let mut rec = AudioRecorder::new().unwrap();
    rec.open(None).unwrap();
    rec.start().unwrap();
    assert_eq!(rec.state(), RecorderState::Recording);
    rec.deliver_samples(&vec![1, 2, 3]);
    rec.deliver_samples(&vec![4, 5]);
    let samples = rec.stop().unwrap();
    assert_eq!(samples, vec![1, 2, 3, 4, 5]);
    assert_eq!(rec.state(), RecorderState::Idle);
    // A new start clears the buffer.
    rec.start().unwrap();
    rec.deliver_samples(&vec![9]);
    assert_eq!(rec.stop().unwrap(), vec![9]);
}

#[test]
fn test_samples_before_start_are_discarded() {
    let mut rec = AudioRecorder::new().unwrap();
    rec.open(None).unwrap();
    rec.deliver_samples(&vec![1, 2, 3]);
    rec.start().unwrap();
    assert_eq!(rec.stop().unwrap(), Vec::<i16>::new());
}

#[test]
fn test_three_channel_delivery_mixes_to_zero() {
    // A 3-channel hardware block of full-scale up, zero, full-scale down
    // converts to a mono value of zero per frame.
    let mut rec = AudioRecorder::new().unwrap();
    let cfg = NegotiatedConfig { sample_rate: 48000, channels: 3, format: SampleFormat::Float32 };
    rec.open(Some(cfg)).unwrap();
    rec.start().unwrap();
    let mut block: Vec<i16> = Vec::new();
    for _ in 0..20 {
        block.push(32767);
        block.push(0);
        block.push(-32767);
    }
    rec.deliver_samples(&block);
    let samples = rec.stop().unwrap();
    assert_eq!(samples.len(), 20);
    assert!(samples.iter().all(|&s| s == 0));
}

#[test]
fn test_close_is_idempotent_and_discards() {
    let mut rec = AudioRecorder::new().unwrap();
    rec.open(None).unwrap();
    rec.start().unwrap();
    rec.deliver_samples(&vec![1, 2]);
    rec.close().unwrap();
    rec.close().unwrap();
    assert_eq!(rec.stop(), Err(CaptureError::NotOpen));
    // The negotiated rate is remembered across close.
    assert_eq!(rec.sample_rate(), 16000);
}

#[test]
fn test_level_buffer_accumulates_and_clears() {
    let mut rec = AudioRecorder::new().unwrap();
    rec.open(None).unwrap();
    rec.start().unwrap();
    rec.deliver_samples(&vec![10, 20]);
    assert_eq!(rec.take_level_samples(), vec![10, 20]);
    // Taking the level samples leaves the capture buffer untouched.
    rec.deliver_samples(&vec![30]);
    assert_eq!(rec.take_level_samples(), vec![30]);
    assert_eq!(rec.stop().unwrap(), vec![10, 20, 30]);
}

#[test]
fn test_pick_preferred_config_empty() {
    assert_eq!(pick_preferred_config(&vec![]), None);
}

#[test]
fn test_pick_preferred_config_no_preferred_rate() {
    let ranges = vec![range(96000, 192000, 2, SampleFormat::Float32)];
    assert_eq!(pick_preferred_config(&ranges), None);
}

#[test]
fn test_pick_preferred_config_takes_first_preferred_rate() {
    let ranges = vec![range(8000, 48000, 1, SampleFormat::Int16)];
    let cfg = pick_preferred_config(&ranges).unwrap();
    assert_eq!(cfg.sample_rate, 16000);
    assert_eq!(cfg.channels, 1);
    assert_eq!(cfg.format, SampleFormat::Int16);
}

#[test]
fn test_pick_preferred_config_prefers_rate_order_over_fidelity() {
    // The rate preference is the primary key: a range covering only 16000 Hz
    // wins over a higher-fidelity range covering only 44100 Hz.
    let ranges = vec![
        range(44100, 44100, 2, SampleFormat::Float32),
        range(16000, 16000, 1, SampleFormat::Int16),
    ];
    let cfg = pick_preferred_config(&ranges).unwrap();
    assert_eq!(cfg.sample_rate, 16000);
    assert_eq!(cfg.format, SampleFormat::Int16);
    assert_eq!(cfg.channels, 1);
}

#[test]
fn test_pick_preferred_config_prefers_higher_fidelity_at_the_chosen_rate() {
    // Among the ranges covering the chosen rate, fidelity decides.
    let ranges = vec![
        range(16000, 16000, 1, SampleFormat::Uint8),
        range(16000, 48000, 2, SampleFormat::Float32),
        range(16000, 16000, 1, SampleFormat::Int16),
    ];
    let cfg = pick_preferred_config(&ranges).unwrap();
    assert_eq!(cfg.sample_rate, 16000);
    assert_eq!(cfg.format, SampleFormat::Float32);
    assert_eq!(cfg.channels, 2);
}

#[test]
fn test_pick_preferred_config_keeps_earliest_on_tie() {
    // Two ranges of equal fidelity covering the chosen rate: the earliest
    // one supplies channels and format.
    let ranges = vec![
        range(16000, 16000, 2, SampleFormat::Float32),
        range(16000, 16000, 1, SampleFormat::Float32),
    ];
    let cfg = pick_preferred_config(&ranges).unwrap();
    assert_eq!(cfg.sample_rate, 16000);
    assert_eq!(cfg.channels, 2);
}

#[test]
fn test_pick_preferred_config_rate_beats_a_lone_high_fidelity_range() {
    // Even when a 48000-only float range is present, a plain range covering
    // the more preferred 44100 wins the rate choice.
    let ranges = vec![
        range(48000, 48000, 2, SampleFormat::Float32),
        range(44100, 44100, 1, SampleFormat::Uint8),
    ];
    let cfg = pick_preferred_config(&ranges).unwrap();
    assert_eq!(cfg.sample_rate, 44100);
    assert_eq!(cfg.format, SampleFormat::Uint8);
}

#[test]
fn test_pick_preferred_config_skips_unsupported_ranges() {
    let ranges = vec![
        range(96000, 192000, 2, SampleFormat::Float32),
        range(22050, 22050, 1, SampleFormat::Int32),
    ];
    let cfg = pick_preferred_config(&ranges).unwrap();
    assert_eq!(cfg.sample_rate, 22050);
    assert_eq!(cfg.format, SampleFormat::Int32);
}

use indexvoice::samples::mix_to_mono;

#[test]
fn test_three_channel_block_mixes_to_zero() {
    // A 3-channel block of full-scale up, zero, full-scale down (the integer
    // rendering of [1.0, 0.0, -1.0]) averages to exactly zero per frame.
    let mut block: Vec<i16> = Vec::new();
    for _ in 0..50 {
        block.push(32767);
        block.push(0);
        block.push(-32767);
    }
    let mono = mix_to_mono(&block, 3);
    assert_eq!(mono.len(), 50);
    assert!(mono.iter().all(|&s| s == 0));
}

#[test]
fn test_mono_passthrough() {
    let block: Vec<i16> = vec![5, -7, 32767, -32768, 0];
    assert_eq!(mix_to_mono(&block, 1), block);
}

#[test]
fn test_stereo_mean() {
    let block: Vec<i16> = vec![100, 200, -100, -200, 0, 1];
    assert_eq!(mix_to_mono(&block, 2), vec![150, -150, 0]);
}

#[test]
fn test_partial_trailing_group_divided_by_full_channel_count() {
    // A trailing partial group is still divided by the channel count.
    let block: Vec<i16> = vec![100, 200, 300, 400, 500];
    assert_eq!(mix_to_mono(&block, 2), vec![150, 350, 250]);
}

#[test]
fn test_mean_rounds_toward_negative_infinity() {
    let block: Vec<i16> = vec![-3, 0];
    assert_eq!(mix_to_mono(&block, 2), vec![-2]);
    let block2: Vec<i16> = vec![3, 0];
    assert_eq!(mix_to_mono(&block2, 2), vec![1]);
}

#[test]
fn test_empty_block() {
    let block: Vec<i16> = vec![];
    assert!(mix_to_mono(&block, 4).is_empty());
}

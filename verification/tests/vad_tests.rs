use indexvoice::smoothed::SmoothedVad;
use indexvoice::vad::{VadError, VadFrame, VoiceActivityDetector};
use indexvoice::VAD_FRAME_SAMPLES;

/// A detector that replays a fixed list of verdicts, one per frame, and
/// rejects frames of the wrong size — like the real classifier, minus the
/// neural network.
struct ScriptedVad {
    verdicts: Vec<bool>,
    next: usize,
}

impl ScriptedVad {
    fn new(verdicts: Vec<bool>) -> Self {
        ScriptedVad { verdicts, next: 0 }
    }
}

impl VoiceActivityDetector for ScriptedVad {
    fn push_frame(&mut self, frame: &Vec<i16>) -> Result<VadFrame, VadError> {
        if frame.len() != VAD_FRAME_SAMPLES {
            return Err(VadError::InvalidFrameSize);
        }
        let v = self.verdicts[self.next];
        self.next += 1;
        if v {
            Ok(VadFrame::Speech(frame.clone()))
        } else {
            Ok(VadFrame::Noise)
        }
    }
}

fn frame_of(value: i16) -> Vec<i16> {
    vec![value; VAD_FRAME_SAMPLES]
}

#[test]
fn test_vad_frame_is_speech() {
    assert!(VadFrame::Speech(vec![1, 2, 3]).is_speech());
    assert!(!VadFrame::Noise.is_speech());
}

#[test]
fn test_onset_not_reached_never_emits_speech() {
    // onset_frames - 1 speech frames followed by a noise frame: never speech.
    let inner = ScriptedVad::new(vec![true, true, true, false]);
    let mut vad = SmoothedVad::new(inner, 3, 10, 4);
    for i in 0..4 {
        let out = vad.push_frame(&frame_of(i as i16 + 1)).unwrap();
        assert!(!out.is_speech(), "frame {} must be noise", i);
    }
}

#[test]
fn test_onset_confirmed_replays_prefill() {
    // Exactly onset_frames speech frames: speech on the last one, replaying
    // (prefill_frames + 1) frames' worth of buffered samples.
    let inner = ScriptedVad::new(vec![true, true, true, true]);
    let mut vad = SmoothedVad::new(inner, 3, 10, 4);
    for i in 0..3 {
        let out = vad.push_frame(&frame_of(i as i16 + 1)).unwrap();
        assert!(!out.is_speech(), "frame {} must be noise", i);
    }
    match vad.push_frame(&frame_of(4)).unwrap() {
        VadFrame::Speech(payload) => {
            assert_eq!(payload.len(), (3 + 1) * VAD_FRAME_SAMPLES);
            // The replay holds the buffered history, oldest first.
            assert_eq!(payload[0], 1);
            assert_eq!(payload[VAD_FRAME_SAMPLES], 2);
            assert_eq!(payload[2 * VAD_FRAME_SAMPLES], 3);
            assert_eq!(payload[3 * VAD_FRAME_SAMPLES], 4);
        }
        VadFrame::Noise => panic!("onset frame must emit speech"),
    }
}

#[test]
fn test_onset_confirmed_with_defaults() {
    // With the defaults (prefill 3, hangover 10, onset 2) only two frames
    // have been buffered by the onset, so the replay holds those two.
    let inner = ScriptedVad::new(vec![true, true]);
    let mut vad = SmoothedVad::with_defaults(inner);
    assert!(!vad.push_frame(&frame_of(1)).unwrap().is_speech());
    match vad.push_frame(&frame_of(2)).unwrap() {
        VadFrame::Speech(payload) => assert_eq!(payload.len(), 2 * VAD_FRAME_SAMPLES),
        VadFrame::Noise => panic!("onset frame must emit speech"),
    }
}

#[test]
fn test_hangover_tail_then_noise() {
    // After entering speech, hangover_frames noise frames still emit speech,
    // and the very next noise frame emits noise.
    let hangover = 10usize;
    let mut verdicts = vec![true, true];
    verdicts.extend(std::iter::repeat(false).take(hangover + 1));
    let inner = ScriptedVad::new(verdicts);
    let mut vad = SmoothedVad::with_defaults(inner);
    vad.push_frame(&frame_of(1)).unwrap();
    assert!(vad.push_frame(&frame_of(2)).unwrap().is_speech());
    for i in 0..hangover {
        let out = vad.push_frame(&frame_of(10 + i as i16)).unwrap();
        match out {
            VadFrame::Speech(payload) => {
                // The hangover tail carries the incoming frame itself.
                assert_eq!(payload, frame_of(10 + i as i16));
            }
            VadFrame::Noise => panic!("hangover frame {} must emit speech", i),
        }
    }
    assert!(!vad.push_frame(&frame_of(99)).unwrap().is_speech());
}

#[test]
fn test_speech_continues_while_voiced() {
    let inner = ScriptedVad::new(vec![true, true, true, true]);
    let mut vad = SmoothedVad::with_defaults(inner);
    vad.push_frame(&frame_of(1)).unwrap();
    assert!(vad.push_frame(&frame_of(2)).unwrap().is_speech());
    match vad.push_frame(&frame_of(3)).unwrap() {
        VadFrame::Speech(payload) => assert_eq!(payload, frame_of(3)),
        VadFrame::Noise => panic!("voiced frame during speech must emit speech"),
    }
}

#[test]
fn test_reset_behaves_like_fresh_instance() {
    // After any sequence, reset returns the decorator to a state behaviorally
    // identical to a freshly constructed one: same raw verdicts and inputs
    // from then on, same outputs.
    let prefix = vec![true, false, true];
    let tail = vec![true, true, false, false, true];
    let mut script_a = prefix.clone();
    script_a.extend(&tail);

    let mut reset_one = SmoothedVad::new(ScriptedVad::new(script_a), 3, 10, 2);
    for i in 0..prefix.len() {
        reset_one.push_frame(&frame_of(50 + i as i16)).unwrap();
    }
    reset_one.reset();

    let mut fresh_one = SmoothedVad::new(ScriptedVad::new(tail.clone()), 3, 10, 2);
    for i in 0..tail.len() {
        let input = frame_of(i as i16);
        let a = reset_one.push_frame(&input).unwrap();
        let b = fresh_one.push_frame(&input).unwrap();
        assert_eq!(a, b, "frame {} after reset must match a fresh instance", i);
    }
}

#[test]
fn test_invalid_frame_size_propagates() {
    let inner = ScriptedVad::new(vec![]);
    let mut vad = SmoothedVad::with_defaults(inner);
    let short: Vec<i16> = vec![0; 100];
    assert_eq!(vad.push_frame(&short), Err(VadError::InvalidFrameSize));
}

#[test]
fn test_push_frame_with_verdict_is_deterministic() {
    let inner = ScriptedVad::new(vec![]);
    let mut vad = SmoothedVad::new(inner, 1, 2, 1);
    // A speech verdict with onset 1 triggers immediately, replaying the
    // single buffered frame.
    match vad.push_frame_with_verdict(&frame_of(5), true) {
        VadFrame::Speech(payload) => assert_eq!(payload, frame_of(5)),
        VadFrame::Noise => panic!("onset must trigger"),
    }
    // A noise verdict inside the hangover window still emits the frame.
    match vad.push_frame_with_verdict(&frame_of(6), false) {
        VadFrame::Speech(payload) => assert_eq!(payload, frame_of(6)),
        VadFrame::Noise => panic!("hangover must carry the frame"),
    }
}

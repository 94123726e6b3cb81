use mouthwrite_linux::audio::recorder::PersistentRecorder;

fn recorder(ms: u64) -> PersistentRecorder {
    match PersistentRecorder::new(ms) {
        Ok(r) => r,
        Err(e) => panic!("{}", e.describe()),
    }
}

#[test]
fn pre_roll_keeps_most_recent_bytes() {
    // 1 ms of pre-roll is 32 bytes.
    let mut r = recorder(1);
    let first: Vec<u8> = (0u8..20).collect();
    let second: Vec<u8> = (20u8..50).collect();
    r.push_audio(&first);
    r.push_audio(&second);
    assert!(!r.is_recording());
    r.start_recording();
    assert!(r.is_recording());
    let pcm = r.stop_recording();
    let expected: Vec<u8> = (18u8..50).collect();
    assert_eq!(pcm, expected);
}

#[test]
fn session_returns_pre_roll_then_speech() {
    let mut r = recorder(1);
    r.push_audio(&[1, 2, 3]);
    r.start_recording();
    r.push_audio(&[4, 5]);
    r.push_audio(&[6]);
    let pcm = r.stop_recording();
    assert_eq!(pcm, vec![1, 2, 3, 4, 5, 6]);
    assert!(!r.is_recording());
    // The pre-roll was consumed by the session.
    r.start_recording();
    assert_eq!(r.stop_recording(), Vec::<u8>::new());
}

#[test]
fn zero_pre_roll_keeps_nothing() {
    let mut r = recorder(0);
    r.push_audio(&[9, 9, 9]);
    r.start_recording();
    r.push_audio(&[7]);
    assert_eq!(r.stop_recording(), vec![7]);
}

use mouthwrite_linux::app_core::{AppCore, Mode, Phase, SessionAction, SessionEvent};
use mouthwrite_linux::input::InputEvent;

fn input(core: &mut AppCore, e: InputEvent) -> SessionAction {
    core.step(SessionEvent::Input(e))
}

fn is_nothing(a: &SessionAction) -> bool {
    matches!(a, SessionAction::Nothing)
}

#[test]
fn full_direct_session_then_paste() {
    let mut core = AppCore::new();
    assert!(matches!(input(&mut core, InputEvent::DirectModePressed), SessionAction::StartRecording));
    assert_eq!(core.phase(), Phase::Starting);
    assert!(is_nothing(&core.step(SessionEvent::RecordingStarted)));
    assert!(matches!(input(&mut core, InputEvent::DirectModeReleased), SessionAction::StopRecording));
    match core.step(SessionEvent::PcmReady(vec![1, 2])) {
        SessionAction::Transcribe(p) => assert_eq!(p, vec![1, 2]),
        _ => panic!("audio not transcribed"),
    }
    match core.step(SessionEvent::Transcribed("hello".to_string())) {
        SessionAction::Process(m, t) => {
            assert_eq!(m, Mode::Direct);
            assert_eq!(t, "hello");
        }
        _ => panic!("transcript not processed"),
    }
    assert!(is_nothing(&core.step(SessionEvent::Chunk("Hel".to_string()))));
    assert!(is_nothing(&core.step(SessionEvent::Chunk("lo.".to_string()))));
    match core.step(SessionEvent::StreamEnded) {
        SessionAction::Deliver(t) => assert_eq!(t, "Hello."),
        _ => panic!("result not delivered"),
    }
    assert_eq!(core.phase(), Phase::Listening);
    assert!(matches!(input(&mut core, InputEvent::MouseLeftClicked), SessionAction::Paste));
    // A second click pastes nothing.
    assert!(is_nothing(&input(&mut core, InputEvent::MouseLeftClicked)));
}

#[test]
fn direct_recording_upgraded_to_translate() {
    let mut core = AppCore::new();
    input(&mut core, InputEvent::DirectModePressed);
    core.step(SessionEvent::RecordingStarted);
    assert!(is_nothing(&input(&mut core, InputEvent::TranslateModePressed)));
    // The direct release no longer matches the mode.
    assert!(is_nothing(&input(&mut core, InputEvent::DirectModeReleased)));
    assert!(matches!(
        input(&mut core, InputEvent::TranslateModeReleased),
        SessionAction::StopRecording
    ));
    core.step(SessionEvent::PcmReady(vec![5]));
    match core.step(SessionEvent::Transcribed("bonjour".to_string())) {
        SessionAction::Process(m, _) => assert_eq!(m, Mode::Translate),
        _ => panic!("transcript not processed"),
    }
}

#[test]
fn translate_recording_not_downgraded() {
    let mut core = AppCore::new();
    input(&mut core, InputEvent::TranslateModePressed);
    core.step(SessionEvent::RecordingStarted);
    assert!(is_nothing(&input(&mut core, InputEvent::DirectModePressed)));
    assert!(is_nothing(&input(&mut core, InputEvent::DirectModeReleased)));
    assert!(matches!(
        input(&mut core, InputEvent::TranslateModeReleased),
        SessionAction::StopRecording
    ));
}

#[test]
fn empty_outcomes_return_to_listening() {
    let mut core = AppCore::new();
    input(&mut core, InputEvent::DirectModePressed);
    core.step(SessionEvent::RecordingStarted);
    input(&mut core, InputEvent::DirectModeReleased);
    assert!(is_nothing(&core.step(SessionEvent::PcmReady(vec![]))));
    assert_eq!(core.phase(), Phase::Listening);

    input(&mut core, InputEvent::DirectModePressed);
    core.step(SessionEvent::RecordingStarted);
    input(&mut core, InputEvent::DirectModeReleased);
    core.step(SessionEvent::PcmReady(vec![3]));
    assert!(is_nothing(&core.step(SessionEvent::Transcribed(String::new()))));
    assert_eq!(core.phase(), Phase::Listening);

    input(&mut core, InputEvent::DirectModePressed);
    core.step(SessionEvent::RecordingStarted);
    input(&mut core, InputEvent::DirectModeReleased);
    core.step(SessionEvent::PcmReady(vec![3]));
    core.step(SessionEvent::Transcribed("x".to_string()));
    assert!(is_nothing(&core.step(SessionEvent::StreamEnded)));
    assert!(is_nothing(&input(&mut core, InputEvent::MouseLeftClicked)));
}

#[test]
fn failed_start_leaves_release_without_effect() {
    let mut core = AppCore::new();
    input(&mut core, InputEvent::DirectModePressed);
    assert!(is_nothing(&core.step(SessionEvent::RecordingFailed)));
    assert!(is_nothing(&input(&mut core, InputEvent::DirectModeReleased)));
    assert!(matches!(input(&mut core, InputEvent::DirectModePressed), SessionAction::StartRecording));
}

#[test]
fn failures_return_to_listening() {
    let mut core = AppCore::new();
    input(&mut core, InputEvent::DirectModePressed);
    core.step(SessionEvent::RecordingStarted);
    input(&mut core, InputEvent::DirectModeReleased);
    assert!(is_nothing(&core.step(SessionEvent::PcmLost)));
    assert_eq!(core.phase(), Phase::Listening);
    input(&mut core, InputEvent::TranslateModePressed);
    core.step(SessionEvent::RecordingStarted);
    input(&mut core, InputEvent::TranslateModeReleased);
    core.step(SessionEvent::PcmReady(vec![1]));
    assert!(is_nothing(&core.step(SessionEvent::TranscriptionFailed)));
    assert_eq!(core.phase(), Phase::Listening);
}

//! The session state machine of the daemon: hotkey presses start and stop
//! recordings, a stopped recording is transcribed, the transcript is polished
//! or translated, the result goes to the clipboard, and the next click pastes
//! it. The machine decides; its driver performs each action and reports the
//! outcome as the next event.
use vstd::prelude::*;
use crate::input::InputEvent;
use crate::input::evdev_hook::{handle_key_spec, hook_consistent, translate_match, HookState};

verus! {

/// How a transcript is processed.
#[derive(Debug, Clone, Copy, PartialEq, Eq, Structural)]
pub enum Mode {
    /// Polish the text in its own language.
    Direct,
    /// Translate the text.
    Translate,
}

/// What the session is waiting for.
#[derive(Debug, Clone, Copy, PartialEq, Eq, Structural)]
pub enum Phase {
    /// Hotkey and mouse input.
    Listening,
    /// The outcome of starting a recording.
    Starting,
    /// The audio of the recording that was just stopped.
    Stopping,
    /// The transcript of that audio.
    Transcribing,
    /// The pieces of the processed text, then the end of the stream.
    Processing,
}

/// What the driver reports to the session.
pub enum SessionEvent {
    Input(InputEvent),
    RecordingStarted,
    RecordingFailed,
    /// The complete audio of the stopped recording.
    PcmReady(Vec<u8>),
    /// The audio of the stopped recording could not be retrieved.
    PcmLost,
    Transcribed(String),
    TranscriptionFailed,
    /// A piece of the processed text.
    Chunk(String),
    /// The processed text is complete (or its stream failed).
    StreamEnded,
}

/// What the session asks the driver to do.
pub enum SessionAction {
    Nothing,
    /// Play the start cue and start recording; report `RecordingStarted` or
    /// `RecordingFailed`.
    StartRecording,
    /// Stop recording and play the end cue; report `PcmReady` or `PcmLost`.
    StopRecording,
    /// Transcribe this audio; report `Transcribed` or `TranscriptionFailed`.
    Transcribe(Vec<u8>),
    /// Process this transcript in this mode; report each `Chunk`, then
    /// `StreamEnded`.
    Process(Mode, String),
    /// Put this text on the clipboard and play the click prompt.
    Deliver(String),
    /// Wait for the click to land, type the paste shortcut, wait for it to
    /// complete.
    Paste,
}

/// The model of an action.
pub enum ActionModel {
    Nothing,
    StartRecording,
    StopRecording,
    Transcribe(Seq<u8>),
    Process(Mode, Seq<char>),
    Deliver(Seq<char>),
    Paste,
}

/// The model of an action.
pub open spec fn action_model(a: SessionAction) -> ActionModel {
    match a {
        SessionAction::Nothing => ActionModel::Nothing,
        SessionAction::StartRecording => ActionModel::StartRecording,
        SessionAction::StopRecording => ActionModel::StopRecording,
        SessionAction::Transcribe(p) => ActionModel::Transcribe(p@),
        SessionAction::Process(m, t) => ActionModel::Process(m, t@),
        SessionAction::Deliver(t) => ActionModel::Deliver(t@),
        SessionAction::Paste => ActionModel::Paste,
    }
}

/// The abstract state of a session.
pub struct CoreState {
    /// A recording is running.
    pub recording: bool,
    /// The mode of the current or last hotkey press, until a transcript
    /// takes it.
    pub current_mode: Option<Mode>,
    /// A result is on the clipboard and the next click pastes it.
    pub pending_paste: bool,
    pub phase: Phase,
    /// The processed text received so far.
    pub result: Seq<char>,
}

/// The mode that a hotkey press or release names.
pub open spec fn mode_of_press(e: InputEvent) -> Option<Mode> {
    match e {
        InputEvent::DirectModePressed => Some(Mode::Direct),
        InputEvent::TranslateModePressed => Some(Mode::Translate),
        _ => None,
    }
}

/// The mode that a hotkey release names.
pub open spec fn mode_of_release(e: InputEvent) -> Option<Mode> {
    match e {
        InputEvent::DirectModeReleased => Some(Mode::Direct),
        InputEvent::TranslateModeReleased => Some(Mode::Translate),
        _ => None,
    }
}

/// The effect of an input event while listening.
pub open spec fn on_input_spec(s: CoreState, e: InputEvent) -> (CoreState, ActionModel) {
    match e {
        InputEvent::DirectModePressed | InputEvent::TranslateModePressed => {
            let requested = mode_of_press(e).unwrap();
            if s.recording {
                // Holding the translate combination over a direct recording
                // switches the recording to translation.
                if s.current_mode == Some(Mode::Direct) && requested == Mode::Translate {
                    (CoreState { current_mode: Some(Mode::Translate), ..s }, ActionModel::Nothing)
                } else {
                    (s, ActionModel::Nothing)
                }
            } else {
                (
                    CoreState { current_mode: Some(requested), phase: Phase::Starting, ..s },
                    ActionModel::StartRecording,
                )
            }
        },
        InputEvent::DirectModeReleased | InputEvent::TranslateModeReleased => {
            let released = mode_of_release(e).unwrap();
            if s.current_mode != Some(released) || !s.recording {
                (s, ActionModel::Nothing)
            } else {
                (
                    CoreState { recording: false, phase: Phase::Stopping, ..s },
                    ActionModel::StopRecording,
                )
            }
        },
        InputEvent::MouseLeftClicked => {
            if s.pending_paste {
                (CoreState { pending_paste: false, ..s }, ActionModel::Paste)
            } else {
                (s, ActionModel::Nothing)
            }
        },
    }
}

/// The transition of the session for one event. Events that the current
/// phase does not wait for change nothing.
pub open spec fn next_spec(s: CoreState, e: SessionEvent) -> (CoreState, ActionModel) {
    match (s.phase, e) {
        (Phase::Listening, SessionEvent::Input(i)) => on_input_spec(s, i),
        (Phase::Starting, SessionEvent::RecordingStarted) => (
            CoreState { recording: true, phase: Phase::Listening, ..s },
            ActionModel::Nothing,
        ),
        (Phase::Starting, SessionEvent::RecordingFailed) => (
            CoreState { phase: Phase::Listening, ..s },
            ActionModel::Nothing,
        ),
        (Phase::Stopping, SessionEvent::PcmReady(pcm)) => if pcm@.len() == 0 {
            (CoreState { phase: Phase::Listening, ..s }, ActionModel::Nothing)
        } else {
            (CoreState { phase: Phase::Transcribing, ..s }, ActionModel::Transcribe(pcm@))
        },
        (Phase::Stopping, SessionEvent::PcmLost) => (
            CoreState { phase: Phase::Listening, ..s },
            ActionModel::Nothing,
        ),
        (Phase::Transcribing, SessionEvent::Transcribed(text)) => if text@.len() == 0 {
            (CoreState { phase: Phase::Listening, ..s }, ActionModel::Nothing)
        } else {
            let mode = match s.current_mode {
                Some(m) => m,
                None => Mode::Direct,
            };
            (
                CoreState {
                    current_mode: None,
                    phase: Phase::Processing,
                    result: Seq::empty(),
                    ..s
                },
                ActionModel::Process(mode, text@),
            )
        },
        (Phase::Transcribing, SessionEvent::TranscriptionFailed) => (
            CoreState { phase: Phase::Listening, ..s },
            ActionModel::Nothing,
        ),
        (Phase::Processing, SessionEvent::Chunk(piece)) => (
            CoreState { result: s.result + piece@, ..s },
            ActionModel::Nothing,
        ),
        (Phase::Processing, SessionEvent::StreamEnded) => if s.result.len() > 0 {
            (
                CoreState {
                    pending_paste: true,
                    phase: Phase::Listening,
                    result: Seq::empty(),
                    ..s
                },
                ActionModel::Deliver(s.result),
            )
        } else {
            (CoreState { phase: Phase::Listening, ..s }, ActionModel::Nothing)
        },
        _ => (s, ActionModel::Nothing),
    }
}

/// The invariant of a session.
pub open spec fn core_wf(s: CoreState) -> bool {
    &&& s.recording ==> s.current_mode is Some && s.phase == Phase::Listening
    &&& (s.phase == Phase::Starting || s.phase == Phase::Stopping || s.phase
        == Phase::Transcribing) ==> s.current_mode is Some && !s.recording
    &&& s.phase == Phase::Processing ==> s.current_mode is None && !s.recording
    &&& s.phase != Phase::Processing ==> s.result.len() == 0
}

/// The daemon's session.
pub struct AppCore {
    recording: bool,
    current_mode: Option<Mode>,
    pending_paste: bool,
    phase: Phase,
    result: String,
}

impl View for AppCore {
    type V = CoreState;

    closed spec fn view(&self) -> CoreState {
        CoreState {
            recording: self.recording,
            current_mode: self.current_mode,
            pending_paste: self.pending_paste,
            phase: self.phase,
            result: self.result@,
        }
    }
}

impl AppCore {
    /// A session that listens, with nothing recorded and nothing to paste.
    pub fn new() -> (res: AppCore)
        ensures
            res@ == (CoreState {
                recording: false,
                current_mode: None,
                pending_paste: false,
                phase: Phase::Listening,
                result: Seq::empty(),
            }),
            core_wf(res@),
    {
        AppCore {
            recording: false,
            current_mode: None,
            pending_paste: false,
            phase: Phase::Listening,
            result: String::new(),
        }
    }

    /// The phase of the session.
    pub fn phase(&self) -> (res: Phase)
        ensures
            res == self@.phase,
    {
        self.phase
    }

    fn on_input(&mut self, e: InputEvent) -> (res: SessionAction)
        ensures
            (final(self)@, action_model(res)) == on_input_spec(old(self)@, e),
    {
        match e {
            InputEvent::DirectModePressed | InputEvent::TranslateModePressed => {
                let requested = if e == InputEvent::DirectModePressed {
                    Mode::Direct
                } else {
                    Mode::Translate
                };
                if self.recording {
                    if self.current_mode == Some(Mode::Direct) && requested == Mode::Translate {
                        self.current_mode = Some(Mode::Translate);
                    }
                    SessionAction::Nothing
                } else {
                    self.current_mode = Some(requested);
                    self.phase = Phase::Starting;
                    SessionAction::StartRecording
                }
            },
            InputEvent::DirectModeReleased | InputEvent::TranslateModeReleased => {
                let released = if e == InputEvent::DirectModeReleased {
                    Mode::Direct
                } else {
                    Mode::Translate
                };
                if self.current_mode != Some(released) || !self.recording {
                    SessionAction::Nothing
                } else {
                    self.recording = false;
                    self.phase = Phase::Stopping;
                    SessionAction::StopRecording
                }
            },
            InputEvent::MouseLeftClicked => {
                if self.pending_paste {
                    self.pending_paste = false;
                    SessionAction::Paste
                } else {
                    SessionAction::Nothing
                }
            },
        }
    }

    /// Advances the session by one event and returns what to do next.
    pub fn step(&mut self, event: SessionEvent) -> (res: SessionAction)
        ensures
            (final(self)@, action_model(res)) == next_spec(old(self)@, event),
    {
        match (self.phase, event) {
            (Phase::Listening, SessionEvent::Input(i)) => self.on_input(i),
            (Phase::Starting, SessionEvent::RecordingStarted) => {
                self.recording = true;
                self.phase = Phase::Listening;
                SessionAction::Nothing
            },
            (Phase::Starting, SessionEvent::RecordingFailed) => {
                self.phase = Phase::Listening;
                SessionAction::Nothing
            },
            (Phase::Stopping, SessionEvent::PcmReady(pcm)) => {
                if pcm.len() == 0 {
                    self.phase = Phase::Listening;
                    SessionAction::Nothing
                } else {
                    self.phase = Phase::Transcribing;
                    SessionAction::Transcribe(pcm)
                }
            },
            (Phase::Stopping, SessionEvent::PcmLost) => {
                self.phase = Phase::Listening;
                SessionAction::Nothing
            },
            (Phase::Transcribing, SessionEvent::Transcribed(text)) => {
                if text.as_str().is_empty() {
                    self.phase = Phase::Listening;
                    SessionAction::Nothing
                } else {
                    let mode = match self.current_mode.take() {
                        Some(m) => m,
                        None => Mode::Direct,
                    };
                    self.phase = Phase::Processing;
                    self.result = String::new();
                    SessionAction::Process(mode, text)
                }
            },
            (Phase::Transcribing, SessionEvent::TranscriptionFailed) => {
                self.phase = Phase::Listening;
                SessionAction::Nothing
            },
            (Phase::Processing, SessionEvent::Chunk(piece)) => {
                self.result.append(piece.as_str());
                SessionAction::Nothing
            },
            (Phase::Processing, SessionEvent::StreamEnded) => {
                self.phase = Phase::Listening;
                if self.result.as_str().is_empty() {
                    SessionAction::Nothing
                } else {
                    let mut text = String::new();
                    std::mem::swap(&mut text, &mut self.result);
                    self.pending_paste = true;
                    SessionAction::Deliver(text)
                }
            },
            _ => SessionAction::Nothing,
        }
    }
}

/// Every transition keeps the session invariant.
pub proof fn lemma_core_wf_preserved(s: CoreState, e: SessionEvent)
    requires
        core_wf(s),
    ensures
        core_wf(next_spec(s, e).0),
{
    if let SessionEvent::Chunk(piece) = e {
        if s.phase != Phase::Processing {
            assert(next_spec(s, e).0 == s);
        }
    }
}

/// A paste is asked for exactly when a click arrives while listening with a
/// result waiting, and the result is then no longer waiting.
pub proof fn lemma_paste_once_per_result(s: CoreState, e: SessionEvent)
    ensures
        (next_spec(s, e).1 is Paste) <==> (s.phase == Phase::Listening && s.pending_paste
            && e matches SessionEvent::Input(InputEvent::MouseLeftClicked)),
        next_spec(s, e).1 is Paste ==> !next_spec(s, e).0.pending_paste,
{
}

/// While listening, releasing a hotkey whose mode is not the current one
/// changes nothing.
pub proof fn lemma_foreign_release_ignored(s: CoreState, i: InputEvent)
    requires
        s.phase == Phase::Listening,
        mode_of_release(i) is Some,
        s.current_mode != mode_of_release(i),
    ensures
        next_spec(s, SessionEvent::Input(i)) == (s, ActionModel::Nothing),
{
}

/// A press during a recording never starts another one; it can only switch
/// a direct recording to translation.
pub proof fn lemma_press_while_recording(s: CoreState, i: InputEvent)
    requires
        s.phase == Phase::Listening,
        s.recording,
        mode_of_press(i) is Some,
    ensures
        ({
            let (t, a) = next_spec(s, SessionEvent::Input(i));
            &&& a == ActionModel::Nothing
            &&& t.recording
            &&& t.phase == Phase::Listening
            &&& t.current_mode == if s.current_mode == Some(Mode::Direct) && mode_of_press(i) == Some(
                Mode::Translate,
            ) {
                Some(Mode::Translate)
            } else {
                s.current_mode
            }
        }),
{
}

/// While listening with no recording running, a hotkey press always starts a
/// recording in the pressed mode, whether or not a result is waiting to be
/// pasted; nothing else about the session changes.
pub proof fn lemma_press_when_idle_starts_recording(s: CoreState, i: InputEvent)
    requires
        s.phase == Phase::Listening,
        !s.recording,
        i == InputEvent::DirectModePressed || i == InputEvent::TranslateModePressed,
    ensures
        ({
            let (t, a) = next_spec(s, SessionEvent::Input(i));
            &&& a == ActionModel::StartRecording
            &&& t.phase == Phase::Starting
            &&& t.current_mode == Some(
                if i == InputEvent::DirectModePressed {
                    Mode::Direct
                } else {
                    Mode::Translate
                },
            )
            &&& t.recording == s.recording
            &&& t.pending_paste == s.pending_paste
            &&& t.result == s.result
        }),
{
}

/// A stopped recording whose audio is empty or lost, or whose transcription
/// fails or is empty, goes back to listening without asking for anything and
/// without touching the mode or a waiting paste.
pub proof fn lemma_empty_outcomes_back_to_listening(s: CoreState, e: SessionEvent)
    requires
        match (s.phase, e) {
            (Phase::Stopping, SessionEvent::PcmLost) => true,
            (Phase::Stopping, SessionEvent::PcmReady(p)) => p@.len() == 0,
            (Phase::Transcribing, SessionEvent::TranscriptionFailed) => true,
            (Phase::Transcribing, SessionEvent::Transcribed(t)) => t@.len() == 0,
            _ => false,
        },
    ensures
        ({
            let (t, a) = next_spec(s, e);
            &&& a == ActionModel::Nothing
            &&& t.phase == Phase::Listening
            &&& t.current_mode == s.current_mode
            &&& t.pending_paste == s.pending_paste
            &&& t.recording == s.recording
        }),
{
}

/// The hotkey release of a mode.
pub open spec fn release_of(m: Mode) -> InputEvent {
    match m {
        Mode::Direct => InputEvent::DirectModeReleased,
        Mode::Translate => InputEvent::TranslateModeReleased,
    }
}

/// Releasing the hotkey of the running recording's mode stops it, its audio
/// is transcribed, and the transcript is processed in that same mode.
pub proof fn lemma_recording_processed_in_its_mode(
    s: CoreState,
    m: Mode,
    pcm: Vec<u8>,
    text: String,
)
    requires
        s.phase == Phase::Listening,
        s.recording,
        s.current_mode == Some(m),
        pcm@.len() > 0,
        text@.len() > 0,
    ensures
        ({
            let (s1, a1) = next_spec(s, SessionEvent::Input(release_of(m)));
            let (s2, a2) = next_spec(s1, SessionEvent::PcmReady(pcm));
            let (s3, a3) = next_spec(s2, SessionEvent::Transcribed(text));
            &&& a1 == ActionModel::StopRecording
            &&& a2 == ActionModel::Transcribe(pcm@)
            &&& a3 == ActionModel::Process(m, text@)
            &&& !s3.recording
            &&& s3.phase == Phase::Processing
        }),
{
}

/// The session and the actions after input events arrive in order.
pub open spec fn feed_inputs(s: CoreState, events: Seq<InputEvent>) -> (CoreState, Seq<ActionModel>)
    decreases events.len(),
{
    if events.len() == 0 {
        (s, Seq::empty())
    } else {
        let (t, acts) = feed_inputs(s, events.drop_last());
        let (u, a) = next_spec(t, SessionEvent::Input(events.last()));
        (u, acts.push(a))
    }
}

/// Completing the translate combination while dictating in direct mode (for
/// instance pressing Ctrl while holding the direct hotkey) switches the
/// running recording to translation: the tracker reports the translate press
/// and the direct release, and the session keeps recording, now in translate
/// mode, without starting or stopping anything.
pub proof fn lemma_overlap_switches_to_translate(
    h: HookState,
    code: u16,
    s: CoreState,
)
    requires
        hook_consistent(h),
        h.direct_held,
        !h.translate_held,
        code < crate::input::evdev_hook::FIRST_BUTTON_CODE,
        translate_match(handle_key_spec(h, code, 1).0),
        s.phase == Phase::Listening,
        s.recording,
        s.current_mode == Some(Mode::Direct),
    ensures
        ({
            let events = handle_key_spec(h, code, 1).1;
            let (t, acts) = feed_inputs(s, events);
            &&& events == seq![InputEvent::TranslateModePressed, InputEvent::DirectModeReleased]
            &&& acts == seq![ActionModel::Nothing, ActionModel::Nothing]
            &&& t.recording
            &&& t.phase == Phase::Listening
            &&& t.current_mode == Some(Mode::Translate)
        }),
{
    let events = handle_key_spec(h, code, 1).1;
    assert(events =~= seq![InputEvent::TranslateModePressed, InputEvent::DirectModeReleased]);
    assert(events.drop_last().drop_last() =~= Seq::<InputEvent>::empty());
    let a1 = feed_inputs(s, events.drop_last()).1;
    assert(events.drop_last() =~= seq![InputEvent::TranslateModePressed]);
    assert(feed_inputs(s, events.drop_last().drop_last()) == (s, Seq::<ActionModel>::empty()));
    assert(a1 =~= seq![ActionModel::Nothing]);
    let a2 = feed_inputs(s, events).1;
    assert(a2 =~= seq![ActionModel::Nothing, ActionModel::Nothing]);
}

/// The session after the processed text arrives in `pieces`.
pub open spec fn feed_pieces(s: CoreState, pieces: Seq<String>) -> CoreState
    decreases pieces.len(),
{
    if pieces.len() == 0 {
        s
    } else {
        next_spec(feed_pieces(s, pieces.drop_last()), SessionEvent::Chunk(pieces.last())).0
    }
}

/// The text of `pieces`, one after another.
pub open spec fn joined(pieces: Seq<String>) -> Seq<char>
    decreases pieces.len(),
{
    if pieces.len() == 0 {
        Seq::empty()
    } else {
        joined(pieces.drop_last()) + pieces.last()@
    }
}

/// What is delivered is the processed text exactly as it arrived: the pieces
/// one after another, handed over when the stream ends, and then waiting for
/// a click; an empty text delivers nothing.
pub proof fn lemma_delivers_joined_pieces(s: CoreState, pieces: Seq<String>)
    requires
        s.phase == Phase::Processing,
        s.result.len() == 0,
    ensures
        ({
            let (t, a) = next_spec(feed_pieces(s, pieces), SessionEvent::StreamEnded);
            &&& t.phase == Phase::Listening
            &&& joined(pieces).len() > 0 ==> a == ActionModel::Deliver(joined(pieces))
                && t.pending_paste
            &&& joined(pieces).len() == 0 ==> a == ActionModel::Nothing && t.pending_paste
                == s.pending_paste
        }),
{
    lemma_feed_pieces(s, pieces);
}

proof fn lemma_feed_pieces(s: CoreState, pieces: Seq<String>)
    requires
        s.phase == Phase::Processing,
    ensures
        feed_pieces(s, pieces) == (CoreState { result: s.result + joined(pieces), ..s }),
    decreases pieces.len(),
{
    if pieces.len() == 0 {
        assert(s.result + Seq::<char>::empty() =~= s.result);
    } else {
        lemma_feed_pieces(s, pieces.drop_last());
        assert(s.result + joined(pieces.drop_last()) + pieces.last()@ =~= s.result + joined(
            pieces,
        ));
    }
}

} // verus!

//! Hotkey tracking: which keys are held, and when a configured combination
//! starts or stops being held.
use vstd::prelude::*;
use std::collections::HashSet;
use crate::config::HotkeysConfig;
use crate::error::AppError;
use crate::input::InputEvent;
use crate::text::{
    concat, is_white_space_spec, lemma_split_append, lemma_split_single, lemma_trim_unchanged, split_pieces, split_spec,
    trim, trim_spec,
};

verus! {

broadcast use vstd::std_specs::hash::group_hash_axioms;

// Linux input event codes of the keys that hotkeys may use.
pub const KEY_LEFTCTRL: u16 = 29;
pub const KEY_LEFTSHIFT: u16 = 42;
pub const KEY_RIGHTSHIFT: u16 = 54;
pub const KEY_LEFTALT: u16 = 56;
pub const KEY_SPACE: u16 = 57;
pub const KEY_RIGHTCTRL: u16 = 97;
pub const KEY_RIGHTALT: u16 = 100;
pub const KEY_LEFTMETA: u16 = 125;
pub const KEY_RIGHTMETA: u16 = 126;
/// The left mouse button.
pub const BTN_LEFT: u16 = 0x110;
/// Codes from here on are buttons, not keyboard keys.
pub const FIRST_BUTTON_CODE: u16 = 0x100;

/// The code of a hotkey name, for the names that hotkeys may use.
pub open spec fn key_code_spec(name: Seq<char>) -> Option<u16> {
    if name == "KEY_RIGHTALT"@ {
        Some(KEY_RIGHTALT)
    } else if name == "KEY_LEFTALT"@ {
        Some(KEY_LEFTALT)
    } else if name == "KEY_RIGHTMETA"@ {
        Some(KEY_RIGHTMETA)
    } else if name == "KEY_LEFTMETA"@ {
        Some(KEY_LEFTMETA)
    } else if name == "KEY_SPACE"@ {
        Some(KEY_SPACE)
    } else if name == "KEY_RIGHTCTRL"@ {
        Some(KEY_RIGHTCTRL)
    } else if name == "KEY_LEFTCTRL"@ {
        Some(KEY_LEFTCTRL)
    } else if name == "KEY_LEFTSHIFT"@ {
        Some(KEY_LEFTSHIFT)
    } else if name == "KEY_RIGHTSHIFT"@ {
        Some(KEY_RIGHTSHIFT)
    } else {
        None
    }
}

/// The codes of `names` in order, or the first name that has no code.
pub open spec fn codes_of_names(names: Seq<Seq<char>>) -> Result<Seq<u16>, Seq<char>>
    decreases names.len(),
{
    if names.len() == 0 {
        Ok(Seq::empty())
    } else {
        match codes_of_names(names.drop_last()) {
            Err(bad) => Err(bad),
            Ok(codes) => match key_code_spec(names.last()) {
                Some(c) => Ok(codes.push(c)),
                None => Err(names.last()),
            },
        }
    }
}

/// The trimmed names of a `+`-separated combination.
pub open spec fn combo_names(combo: Seq<char>) -> Seq<Seq<char>> {
    split_spec(combo, '+').map_values(|p: Seq<char>| trim_spec(p))
}

/// The codes of a combination, or the first name in it that has no code.
pub open spec fn parse_keys_spec(combo: Seq<char>) -> Result<Seq<u16>, Seq<char>> {
    codes_of_names(combo_names(combo))
}

/// The text of the error for a name that has no code.
pub open spec fn unsupported_key_text(name: Seq<char>) -> Seq<char> {
    "Unsupported or invalid key: "@ + name
}

/// Whether `code` is one of the two Ctrl keys, which count as one.
pub open spec fn is_ctrl(code: u16) -> bool {
    code == KEY_LEFTCTRL || code == KEY_RIGHTCTRL
}

/// The held keys after a key event (`value` 1 presses, 0 releases, anything
/// else repeats); pressing or releasing either Ctrl key does so for both.
pub open spec fn after_key_spec(active: Set<u16>, code: u16, value: i32) -> Set<u16> {
    if value == 1 {
        if is_ctrl(code) {
            active.insert(code).insert(KEY_LEFTCTRL).insert(KEY_RIGHTCTRL)
        } else {
            active.insert(code)
        }
    } else if value == 0 {
        if is_ctrl(code) {
            active.remove(code).remove(KEY_LEFTCTRL).remove(KEY_RIGHTCTRL)
        } else {
            active.remove(code)
        }
    } else {
        active
    }
}

/// Whether a combination is non-empty and all its keys are held.
pub open spec fn keys_active_spec(active: Set<u16>, keys: Seq<u16>) -> bool {
    keys.len() > 0 && forall|i: int| 0 <= i < keys.len() ==> active.contains(#[trigger] keys[i])
}

/// The abstract state of the hotkey tracker.
pub struct HookState {
    pub direct_keys: Seq<u16>,
    pub translate_keys: Seq<u16>,
    pub active: Set<u16>,
    pub direct_held: bool,
    pub translate_held: bool,
}

/// Whether the translate combination is matched in `s`.
pub open spec fn translate_match(s: HookState) -> bool {
    keys_active_spec(s.active, s.translate_keys)
}

/// Whether the direct combination is matched in `s`; the translate
/// combination takes precedence when both are held.
pub open spec fn direct_match(s: HookState) -> bool {
    keys_active_spec(s.active, s.direct_keys) && !translate_match(s)
}

/// The event for a mode flag going from `was` to `now`, if it changed.
pub open spec fn edge(was: bool, now: bool, pressed: InputEvent, released: InputEvent) -> Seq<
    InputEvent,
> {
    if !was && now {
        seq![pressed]
    } else if was && !now {
        seq![released]
    } else {
        Seq::empty()
    }
}

/// Re-evaluates both combinations: the held flags follow the matches, and
/// each change is announced, translate first.
pub open spec fn evaluate_spec(s: HookState) -> (HookState, Seq<InputEvent>) {
    let t = translate_match(s);
    let d = direct_match(s);
    (
        HookState { direct_held: d, translate_held: t, ..s },
        edge(
            s.translate_held,
            t,
            InputEvent::TranslateModePressed,
            InputEvent::TranslateModeReleased,
        ) + edge(s.direct_held, d, InputEvent::DirectModePressed, InputEvent::DirectModeReleased),
    )
}

/// The state and the events after a key event with `code` and `value`: a
/// release of the left mouse button is a click; other buttons are passed
/// over; keyboard keys update the held set and re-evaluate the combinations.
pub open spec fn handle_key_spec(s: HookState, code: u16, value: i32) -> (HookState, Seq<
    InputEvent,
>) {
    if code == BTN_LEFT {
        (s, if value == 0 {
            seq![InputEvent::MouseLeftClicked]
        } else {
            Seq::empty()
        })
    } else if code >= FIRST_BUTTON_CODE {
        (s, Seq::empty())
    } else {
        evaluate_spec(HookState { active: after_key_spec(s.active, code, value), ..s })
    }
}

/// Whether the held flags agree with the current matches.
pub open spec fn hook_consistent(s: HookState) -> bool {
    &&& s.translate_held == translate_match(s)
    &&& s.direct_held == direct_match(s)
}

/// Global hotkey tracking over keyboard and mouse key events.
pub struct EvdevHook {
    direct_keys: Vec<u16>,
    translate_keys: Vec<u16>,
    active_keys: HashSet<u16>,
    direct_held: bool,
    translate_held: bool,
}

impl View for EvdevHook {
    type V = HookState;

    closed spec fn view(&self) -> HookState {
        HookState {
            direct_keys: self.direct_keys@,
            translate_keys: self.translate_keys@,
            active: self.active_keys@,
            direct_held: self.direct_held,
            translate_held: self.translate_held,
        }
    }
}

/// The code of a hotkey name.
fn key_code(name: &String) -> (res: Option<u16>)
    ensures
        res == key_code_spec(name@),
{
    if *name == "KEY_RIGHTALT".to_owned() {
        Some(KEY_RIGHTALT)
    } else if *name == "KEY_LEFTALT".to_owned() {
        Some(KEY_LEFTALT)
    } else if *name == "KEY_RIGHTMETA".to_owned() {
        Some(KEY_RIGHTMETA)
    } else if *name == "KEY_LEFTMETA".to_owned() {
        Some(KEY_LEFTMETA)
    } else if *name == "KEY_SPACE".to_owned() {
        Some(KEY_SPACE)
    } else if *name == "KEY_RIGHTCTRL".to_owned() {
        Some(KEY_RIGHTCTRL)
    } else if *name == "KEY_LEFTCTRL".to_owned() {
        Some(KEY_LEFTCTRL)
    } else if *name == "KEY_LEFTSHIFT".to_owned() {
        Some(KEY_LEFTSHIFT)
    } else if *name == "KEY_RIGHTSHIFT".to_owned() {
        Some(KEY_RIGHTSHIFT)
    } else {
        None
    }
}

/// Announces a change of a mode flag.
fn push_edge(
    events: &mut Vec<InputEvent>,
    was: bool,
    now: bool,
    pressed: InputEvent,
    released: InputEvent,
)
    ensures
        final(events)@ == old(events)@ + edge(was, now, pressed, released),
{
    if !was && now {
        events.push(pressed);
    } else if was && !now {
        events.push(released);
    }
    assert(final(events)@ =~= old(events)@ + edge(was, now, pressed, released));
}

impl EvdevHook {
    /// A tracker for the configured direct and translate combinations, with no
    /// key held; fails on the first key name (direct combination first) that
    /// is not supported.
    pub fn new(config: &HotkeysConfig) -> (res: Result<Self, AppError>)
        ensures
            match (parse_keys_spec(config.direct_mode@), parse_keys_spec(config.translate_mode@)) {
                (Ok(d), Ok(t)) => res matches Ok(hook) && hook@ == (HookState {
                    direct_keys: d,
                    translate_keys: t,
                    active: Set::empty(),
                    direct_held: false,
                    translate_held: false,
                }),
                (Err(bad), _) => res matches Err(AppError::ConfigError(m)) && m@
                    == unsupported_key_text(bad),
                (Ok(_), Err(bad)) => res matches Err(AppError::ConfigError(m)) && m@
                    == unsupported_key_text(bad),
            },
    {
        let direct_keys = Self::parse_keys(config.direct_mode.as_str())?;
        let translate_keys = Self::parse_keys(config.translate_mode.as_str())?;
        Ok(EvdevHook {
            direct_keys,
            translate_keys,
            active_keys: HashSet::new(),
            direct_held: false,
            translate_held: false,
        })
    }

    /// The codes of a `+`-separated key combination; each name is trimmed,
    /// and the first unsupported name is reported.
    pub fn parse_keys(key_string: &str) -> (res: Result<Vec<u16>, AppError>)
        ensures
            match parse_keys_spec(key_string@) {
                Ok(codes) => res matches Ok(keys) && keys@ == codes,
                Err(bad) => res matches Err(AppError::ConfigError(m)) && m@
                    == unsupported_key_text(bad),
            },
    {
        let pieces = split_pieces(key_string, '+');
        let ghost names = combo_names(key_string@);
        let mut keys: Vec<u16> = Vec::new();
        let mut i: usize = 0;
        while i < pieces.len()
            invariant
                i <= pieces@.len(),
                pieces@.len() == split_spec(key_string@, '+').len(),
                forall|j: int|
                    0 <= j < pieces@.len() ==> #[trigger] pieces@[j]@ == split_spec(
                        key_string@,
                        '+',
                    )[j],
                names == combo_names(key_string@),
                names.len() == pieces@.len(),
                codes_of_names(names.take(i as int)) == Ok::<Seq<u16>, Seq<char>>(keys@),
            decreases pieces@.len() - i,
        {
            let name = trim(pieces[i].as_str());
            assert(names[i as int] == name@);
            assert(names.take(i + 1).drop_last() =~= names.take(i as int));
            match key_code(&name) {
                Some(code) => {
                    keys.push(code);
                },
                None => {
                    proof {
                        lemma_codes_error_prefix(names, i as int + 1);
                    }
                    return Err(
                        AppError::ConfigError(concat("Unsupported or invalid key: ", name.as_str())),
                    );
                },
            }
            i = i + 1;
        }
        assert(names.take(i as int) =~= names);
        Ok(keys)
    }

    /// Whether `target_keys` is non-empty and all of its keys are held.
    fn are_keys_active(&self, target_keys: &Vec<u16>) -> (res: bool)
        ensures
            res == keys_active_spec(self.active_keys@, target_keys@),
    {
        if target_keys.len() == 0 {
            return false;
        }
        let mut i: usize = 0;
        while i < target_keys.len()
            invariant
                i <= target_keys@.len(),
                forall|j: int| 0 <= j < i ==> self.active_keys@.contains(#[trigger] target_keys@[j]),
            decreases target_keys@.len() - i,
        {
            if !self.active_keys.contains(&target_keys[i]) {
                return false;
            }
            i = i + 1;
        }
        true
    }

    /// Re-evaluates both combinations and reports each change, translate
    /// first.
    fn evaluate_state(&mut self) -> (events: Vec<InputEvent>)
        ensures
            (final(self)@, events@) == evaluate_spec(old(self)@),
    {
        let translate_match = self.are_keys_active(&self.translate_keys);
        let direct_match = self.are_keys_active(&self.direct_keys) && !translate_match;
        let mut events: Vec<InputEvent> = Vec::new();
        push_edge(
            &mut events,
            self.translate_held,
            translate_match,
            InputEvent::TranslateModePressed,
            InputEvent::TranslateModeReleased,
        );
        push_edge(
            &mut events,
            self.direct_held,
            direct_match,
            InputEvent::DirectModePressed,
            InputEvent::DirectModeReleased,
        );
        self.translate_held = translate_match;
        self.direct_held = direct_match;
        events
    }

    /// Processes one key event (`value` 1 press, 0 release, 2 repeat) and
    /// returns the events it gives rise to, in order.
    pub fn handle_key(&mut self, code: u16, value: i32) -> (events: Vec<InputEvent>)
        ensures
            (final(self)@, events@) == handle_key_spec(old(self)@, code, value),
    {
        if code == BTN_LEFT {
            let mut events: Vec<InputEvent> = Vec::new();
            if value == 0 {
                events.push(InputEvent::MouseLeftClicked);
            }
            assert(events@ =~= handle_key_spec(old(self)@, code, value).1);
            return events;
        }
        if code >= FIRST_BUTTON_CODE {
            let events: Vec<InputEvent> = Vec::new();
            assert(events@ =~= Seq::<InputEvent>::empty());
            return events;
        }
        if value == 1 {
            self.active_keys.insert(code);
            if code == KEY_LEFTCTRL || code == KEY_RIGHTCTRL {
                self.active_keys.insert(KEY_LEFTCTRL);
                self.active_keys.insert(KEY_RIGHTCTRL);
            }
        } else if value == 0 {
            self.active_keys.remove(&code);
            if code == KEY_LEFTCTRL || code == KEY_RIGHTCTRL {
                self.active_keys.remove(&KEY_LEFTCTRL);
                self.active_keys.remove(&KEY_RIGHTCTRL);
            }
        }
        assert(self@ == HookState {
            active: after_key_spec(old(self)@.active, code, value),
            ..old(self)@
        });
        self.evaluate_state()
    }

    /// Forgets every held key and mode, as after the set of devices changed.
    pub fn reset(&mut self)
        ensures
            final(self)@ == (HookState {
                active: Set::empty(),
                direct_held: false,
                translate_held: false,
                ..old(self)@
            }),
    {
        self.active_keys.clear();
        self.direct_held = false;
        self.translate_held = false;
    }
}

/// A keyboard key is held from its press until its release; repeats change
/// nothing, and no other key's state changes.
pub proof fn lemma_key_held_between_press_and_release(s: HookState, code: u16, value: i32, other: u16)
    requires
        code < FIRST_BUTTON_CODE,
        !is_ctrl(code),
        other != code,
    ensures
        value == 1 ==> handle_key_spec(s, code, value).0.active.contains(code),
        value == 0 ==> !handle_key_spec(s, code, value).0.active.contains(code),
        value != 0 && value != 1 ==> handle_key_spec(s, code, value).0.active == s.active,
        handle_key_spec(s, code, value).0.active.contains(other) == s.active.contains(other),
        handle_key_spec(s, code, value).0.direct_keys == s.direct_keys,
        handle_key_spec(s, code, value).0.translate_keys == s.translate_keys,
{
}

/// Matching is by inclusion: keys held besides a combination, such as one
/// whose release was missed, never keep it from matching.
pub proof fn lemma_extra_keys_do_not_block(active: Set<u16>, extra: Set<u16>, keys: Seq<u16>)
    requires
        keys_active_spec(active, keys),
    ensures
        keys_active_spec(active.union(extra), keys),
{
}

/// Each supported hotkey name stands for the Linux input event code of the
/// key of that name (left and right keys are never confused).
pub proof fn lemma_key_names_map_to_their_codes()
    ensures
        key_code_spec("KEY_RIGHTALT"@) == Some(100u16),
        key_code_spec("KEY_LEFTALT"@) == Some(56u16),
        key_code_spec("KEY_RIGHTMETA"@) == Some(126u16),
        key_code_spec("KEY_LEFTMETA"@) == Some(125u16),
        key_code_spec("KEY_SPACE"@) == Some(57u16),
        key_code_spec("KEY_RIGHTCTRL"@) == Some(97u16),
        key_code_spec("KEY_LEFTCTRL"@) == Some(29u16),
        key_code_spec("KEY_LEFTSHIFT"@) == Some(42u16),
        key_code_spec("KEY_RIGHTSHIFT"@) == Some(54u16),
{
    reveal_strlit("KEY_RIGHTALT");
    reveal_strlit("KEY_LEFTALT");
    reveal_strlit("KEY_RIGHTMETA");
    reveal_strlit("KEY_LEFTMETA");
    reveal_strlit("KEY_SPACE");
    reveal_strlit("KEY_RIGHTCTRL");
    reveal_strlit("KEY_LEFTCTRL");
    reveal_strlit("KEY_LEFTSHIFT");
    reveal_strlit("KEY_RIGHTSHIFT");
    assert("KEY_LEFTALT"@.len() != "KEY_RIGHTALT"@.len());
    assert("KEY_RIGHTMETA"@.len() != "KEY_RIGHTALT"@.len());
    assert("KEY_RIGHTMETA"@.len() != "KEY_LEFTALT"@.len());
    assert("KEY_LEFTMETA"@[4] != "KEY_RIGHTALT"@[4]);
    assert("KEY_LEFTMETA"@.len() != "KEY_LEFTALT"@.len());
    assert("KEY_LEFTMETA"@.len() != "KEY_RIGHTMETA"@.len());
    assert("KEY_SPACE"@.len() != "KEY_RIGHTALT"@.len());
    assert("KEY_SPACE"@.len() != "KEY_LEFTALT"@.len());
    assert("KEY_SPACE"@.len() != "KEY_RIGHTMETA"@.len());
    assert("KEY_SPACE"@.len() != "KEY_LEFTMETA"@.len());
    assert("KEY_RIGHTCTRL"@.len() != "KEY_RIGHTALT"@.len());
    assert("KEY_RIGHTCTRL"@.len() != "KEY_LEFTALT"@.len());
    assert("KEY_RIGHTCTRL"@[9] != "KEY_RIGHTMETA"@[9]);
    assert("KEY_RIGHTCTRL"@.len() != "KEY_LEFTMETA"@.len());
    assert("KEY_RIGHTCTRL"@.len() != "KEY_SPACE"@.len());
    assert("KEY_LEFTCTRL"@[4] != "KEY_RIGHTALT"@[4]);
    assert("KEY_LEFTCTRL"@.len() != "KEY_LEFTALT"@.len());
    assert("KEY_LEFTCTRL"@.len() != "KEY_RIGHTMETA"@.len());
    assert("KEY_LEFTCTRL"@[8] != "KEY_LEFTMETA"@[8]);
    assert("KEY_LEFTCTRL"@.len() != "KEY_SPACE"@.len());
    assert("KEY_LEFTCTRL"@.len() != "KEY_RIGHTCTRL"@.len());
    assert("KEY_LEFTSHIFT"@.len() != "KEY_RIGHTALT"@.len());
    assert("KEY_LEFTSHIFT"@.len() != "KEY_LEFTALT"@.len());
    assert("KEY_LEFTSHIFT"@[4] != "KEY_RIGHTMETA"@[4]);
    assert("KEY_LEFTSHIFT"@.len() != "KEY_LEFTMETA"@.len());
    assert("KEY_LEFTSHIFT"@.len() != "KEY_SPACE"@.len());
    assert("KEY_LEFTSHIFT"@[4] != "KEY_RIGHTCTRL"@[4]);
    assert("KEY_LEFTSHIFT"@.len() != "KEY_LEFTCTRL"@.len());
    assert("KEY_RIGHTSHIFT"@.len() != "KEY_RIGHTALT"@.len());
    assert("KEY_RIGHTSHIFT"@.len() != "KEY_LEFTALT"@.len());
    assert("KEY_RIGHTSHIFT"@.len() != "KEY_RIGHTMETA"@.len());
    assert("KEY_RIGHTSHIFT"@.len() != "KEY_LEFTMETA"@.len());
    assert("KEY_RIGHTSHIFT"@.len() != "KEY_SPACE"@.len());
    assert("KEY_RIGHTSHIFT"@.len() != "KEY_RIGHTCTRL"@.len());
    assert("KEY_RIGHTSHIFT"@.len() != "KEY_LEFTCTRL"@.len());
    assert("KEY_RIGHTSHIFT"@.len() != "KEY_LEFTSHIFT"@.len());
}

/// Different names never stand for the same key.
pub proof fn lemma_key_names_distinct(a: Seq<char>, b: Seq<char>)
    requires
        key_code_spec(a) is Some,
        key_code_spec(a) == key_code_spec(b),
    ensures
        a == b,
{
    lemma_key_names_map_to_their_codes();
}

/// Supported names are plain words: no separator, no surrounding white
/// space.
proof fn lemma_supported_name_shape(n: Seq<char>)
    requires
        key_code_spec(n) is Some,
    ensures
        n.len() > 0,
        !is_white_space_spec(n[0]),
        !is_white_space_spec(n.last()),
        forall|i: int| 0 <= i < n.len() ==> n[i] != '+',
{
    if n == "KEY_RIGHTALT"@ {
        reveal_strlit("KEY_RIGHTALT");
    } else if n == "KEY_LEFTALT"@ {
        reveal_strlit("KEY_LEFTALT");
    } else if n == "KEY_RIGHTMETA"@ {
        reveal_strlit("KEY_RIGHTMETA");
    } else if n == "KEY_LEFTMETA"@ {
        reveal_strlit("KEY_LEFTMETA");
    } else if n == "KEY_SPACE"@ {
        reveal_strlit("KEY_SPACE");
    } else if n == "KEY_RIGHTCTRL"@ {
        reveal_strlit("KEY_RIGHTCTRL");
    } else if n == "KEY_LEFTCTRL"@ {
        reveal_strlit("KEY_LEFTCTRL");
    } else if n == "KEY_LEFTSHIFT"@ {
        reveal_strlit("KEY_LEFTSHIFT");
    } else if n == "KEY_RIGHTSHIFT"@ {
        reveal_strlit("KEY_RIGHTSHIFT");
    }
}

/// A combination of one supported name is that name's key alone.
pub proof fn lemma_single_name_parses_to_its_code(n: Seq<char>)
    requires
        key_code_spec(n) is Some,
    ensures
        parse_keys_spec(n) == Ok::<Seq<u16>, Seq<char>>(seq![key_code_spec(n).unwrap()]),
{
    lemma_supported_name_shape(n);
    lemma_split_single(n, '+');
    lemma_trim_unchanged(n);
    let names = combo_names(n);
    assert(names =~= seq![n]);
    assert(names.drop_last() =~= Seq::<Seq<char>>::empty());
    assert(codes_of_names(names.drop_last()) == Ok::<Seq<u16>, Seq<char>>(Seq::empty()));
    assert(names.last() == n);
    assert(Seq::<u16>::empty().push(key_code_spec(n).unwrap()) =~= seq![key_code_spec(n).unwrap()]);
}

/// A combination of two supported names joined by `+` is their two keys, in
/// order.
pub proof fn lemma_two_name_combination(a: Seq<char>, b: Seq<char>)
    requires
        key_code_spec(a) is Some,
        key_code_spec(b) is Some,
    ensures
        parse_keys_spec(a + seq!['+'] + b) == Ok::<Seq<u16>, Seq<char>>(
            seq![key_code_spec(a).unwrap(), key_code_spec(b).unwrap()],
        ),
{
    lemma_supported_name_shape(a);
    lemma_supported_name_shape(b);
    lemma_split_single(a, '+');
    lemma_split_append(a, '+', b);
    lemma_trim_unchanged(a);
    lemma_trim_unchanged(b);
    let names = combo_names(a + seq!['+'] + b);
    assert(names =~= seq![a, b]);
    assert(names.drop_last() =~= seq![a]);
    assert(names.drop_last().drop_last() =~= Seq::<Seq<char>>::empty());
    assert(codes_of_names(names.drop_last().drop_last()) == Ok::<Seq<u16>, Seq<char>>(
        Seq::empty(),
    ));
    let ca = key_code_spec(a).unwrap();
    let cb = key_code_spec(b).unwrap();
    assert(Seq::<u16>::empty().push(ca) =~= seq![ca]);
    assert(codes_of_names(names.drop_last()) == Ok::<Seq<u16>, Seq<char>>(seq![ca]));
    assert(seq![ca].push(cb) =~= seq![ca, cb]);
}

proof fn lemma_codes_error_prefix(names: Seq<Seq<char>>, k: int)
    requires
        0 < k <= names.len(),
        codes_of_names(names.take(k - 1)) is Ok,
        key_code_spec(names[k - 1]) is None,
    ensures
        codes_of_names(names) == Err::<Seq<u16>, Seq<char>>(names[k - 1]),
    decreases names.len() - k,
{
    assert(names.take(k).drop_last() =~= names.take(k - 1));
    if k < names.len() {
        lemma_codes_error_prefix_step(names, k, names[k - 1]);
    } else {
        assert(names.take(k) =~= names);
    }
}

proof fn lemma_codes_error_prefix_step(names: Seq<Seq<char>>, k: int, bad: Seq<char>)
    requires
        0 < k <= names.len(),
        codes_of_names(names.take(k)) == Err::<Seq<u16>, Seq<char>>(bad),
    ensures
        codes_of_names(names) == Err::<Seq<u16>, Seq<char>>(bad),
    decreases names.len() - k,
{
    if k < names.len() {
        assert(names.take(k + 1).drop_last() =~= names.take(k));
        lemma_codes_error_prefix_step(names, k + 1, bad);
    } else {
        assert(names.take(k) =~= names);
    }
}

/// After any keyboard key event the held flags agree with the matches, and
/// button events keep agreement that held before.
pub proof fn lemma_handle_key_consistent(s: HookState, code: u16, value: i32)
    requires
        code < FIRST_BUTTON_CODE || hook_consistent(s),
    ensures
        hook_consistent(handle_key_spec(s, code, value).0),
{
}

/// The direct and translate modes are never held together.
pub proof fn lemma_modes_exclusive(s: HookState)
    requires
        hook_consistent(s),
    ensures
        !(s.direct_held && s.translate_held),
{
}

/// Apart from clicks, the events of a key event announce exactly the changes
/// of the two held flags, translate first: a mode is reported pressed only
/// when it was not held, and released only when it was.
pub proof fn lemma_events_announce_changes(s: HookState, code: u16, value: i32)
    requires
        code != BTN_LEFT,
    ensures
        ({
            let (t, events) = handle_key_spec(s, code, value);
            events == edge(
                s.translate_held,
                t.translate_held,
                InputEvent::TranslateModePressed,
                InputEvent::TranslateModeReleased,
            ) + edge(
                s.direct_held,
                t.direct_held,
                InputEvent::DirectModePressed,
                InputEvent::DirectModeReleased,
            )
        }),
{
    if code >= FIRST_BUTTON_CODE {
        assert(Seq::<InputEvent>::empty() + Seq::<InputEvent>::empty() =~= Seq::<
            InputEvent,
        >::empty());
    }
}

/// The two Ctrl keys count as one: pressing either holds both, releasing
/// either releases both.
pub proof fn lemma_ctrl_keys_paired(s: HookState, code: u16, value: i32)
    requires
        is_ctrl(code),
    ensures
        value == 1 ==> handle_key_spec(s, code, value).0.active.contains(KEY_LEFTCTRL)
            && handle_key_spec(s, code, value).0.active.contains(KEY_RIGHTCTRL),
        value == 0 ==> !handle_key_spec(s, code, value).0.active.contains(KEY_LEFTCTRL)
            && !handle_key_spec(s, code, value).0.active.contains(KEY_RIGHTCTRL),
{
}

/// Button events leave the tracker unchanged; the only event they give rise
/// to is a click, on release of the left button.
pub proof fn lemma_buttons_keep_state(s: HookState, code: u16, value: i32)
    requires
        code >= FIRST_BUTTON_CODE,
    ensures
        handle_key_spec(s, code, value).0 == s,
        handle_key_spec(s, code, value).1 == (if code == BTN_LEFT && value == 0 {
            seq![InputEvent::MouseLeftClicked]
        } else {
            Seq::<InputEvent>::empty()
        }),
{
}

} // verus!

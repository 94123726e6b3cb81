//! The paste shortcut: parsing it from the configuration and the sequence of
//! virtual key actions that types it.
use vstd::prelude::*;
use crate::error::AppError;
use crate::text::{
    concat, is_white_space_spec, lemma_split_append, lemma_split_single, lemma_trim_unchanged, split_pieces, split_spec,
    trim, trim_spec,
};

verus! {

/// The keys that a paste shortcut may use.
#[derive(Debug, Clone, Copy, PartialEq, Eq, Structural)]
pub enum PasteKey {
    LeftShift,
    RightShift,
    LeftControl,
    RightControl,
    LeftAlt,
    RightAlt,
    LeftMeta,
    RightMeta,
    Insert,
    V,
    Space,
    Enter,
}

/// One action of the virtual keyboard.
#[derive(Debug, Clone, Copy, PartialEq, Eq, Structural)]
pub enum PasteStep {
    Press(PasteKey),
    Release(PasteKey),
    /// Flush the actions so far to the system.
    Synchronize,
    /// Hold the pressed keys briefly before releasing them.
    Pause,
}

/// The key that a trimmed name stands for.
pub open spec fn paste_key_spec(name: Seq<char>) -> Option<PasteKey> {
    if name == "KEY_LEFTSHIFT"@ {
        Some(PasteKey::LeftShift)
    } else if name == "KEY_RIGHTSHIFT"@ {
        Some(PasteKey::RightShift)
    } else if name == "KEY_LEFTCTRL"@ {
        Some(PasteKey::LeftControl)
    } else if name == "KEY_RIGHTCTRL"@ {
        Some(PasteKey::RightControl)
    } else if name == "KEY_LEFTALT"@ {
        Some(PasteKey::LeftAlt)
    } else if name == "KEY_RIGHTALT"@ {
        Some(PasteKey::RightAlt)
    } else if name == "KEY_LEFTMETA"@ {
        Some(PasteKey::LeftMeta)
    } else if name == "KEY_RIGHTMETA"@ {
        Some(PasteKey::RightMeta)
    } else if name == "KEY_INSERT"@ {
        Some(PasteKey::Insert)
    } else if name == "KEY_V"@ {
        Some(PasteKey::V)
    } else if name == "KEY_SPACE"@ {
        Some(PasteKey::Space)
    } else if name == "KEY_ENTER"@ {
        Some(PasteKey::Enter)
    } else {
        None
    }
}

/// The keys of the pieces of a shortcut (each trimmed before lookup), or the
/// first piece, as written, that names no key.
pub open spec fn paste_keys_of(pieces: Seq<Seq<char>>) -> Result<Seq<PasteKey>, Seq<char>>
    decreases pieces.len(),
{
    if pieces.len() == 0 {
        Ok(Seq::empty())
    } else {
        match paste_keys_of(pieces.drop_last()) {
            Err(bad) => Err(bad),
            Ok(keys) => match paste_key_spec(trim_spec(pieces.last())) {
                Some(k) => Ok(keys.push(k)),
                None => Err(pieces.last()),
            },
        }
    }
}

/// The keys of a `+`-separated shortcut, or its first unsupported piece.
pub open spec fn parse_shortcut_spec(shortcut: Seq<char>) -> Result<Seq<PasteKey>, Seq<char>> {
    paste_keys_of(split_spec(shortcut, '+'))
}

/// The text of the error for a piece that names no key.
pub open spec fn unsupported_paste_key_text(piece: Seq<char>) -> Seq<char> {
    "Unsupported paste key: "@ + piece
}

/// Presses of `keys` in order.
pub open spec fn presses(keys: Seq<PasteKey>) -> Seq<PasteStep> {
    keys.map_values(|k: PasteKey| PasteStep::Press(k))
}

/// Releases of `keys` in reverse order.
pub open spec fn releases(keys: Seq<PasteKey>) -> Seq<PasteStep> {
    keys.reverse().map_values(|k: PasteKey| PasteStep::Release(k))
}

/// Typing a shortcut: press its keys in order, flush, hold, release them in
/// reverse order, flush.
pub open spec fn paste_steps_spec(keys: Seq<PasteKey>) -> Seq<PasteStep> {
    presses(keys) + seq![PasteStep::Synchronize, PasteStep::Pause] + releases(keys) + seq![
        PasteStep::Synchronize,
    ]
}

/// Simulated typing of the paste shortcut on a virtual keyboard.
pub struct UinputSim;

impl UinputSim {
    /// The key that one piece of a paste shortcut names, after trimming; the
    /// error quotes the piece as written.
    pub fn parse_uinput_key(key_str: &str) -> (res: Result<PasteKey, AppError>)
        ensures
            match paste_key_spec(trim_spec(key_str@)) {
                Some(k) => res == Ok::<PasteKey, AppError>(k),
                None => res matches Err(AppError::ConfigError(m)) && m@
                    == unsupported_paste_key_text(key_str@),
            },
    {
        let name = trim(key_str);
        if name == "KEY_LEFTSHIFT".to_owned() {
            Ok(PasteKey::LeftShift)
        } else if name == "KEY_RIGHTSHIFT".to_owned() {
            Ok(PasteKey::RightShift)
        } else if name == "KEY_LEFTCTRL".to_owned() {
            Ok(PasteKey::LeftControl)
        } else if name == "KEY_RIGHTCTRL".to_owned() {
            Ok(PasteKey::RightControl)
        } else if name == "KEY_LEFTALT".to_owned() {
            Ok(PasteKey::LeftAlt)
        } else if name == "KEY_RIGHTALT".to_owned() {
            Ok(PasteKey::RightAlt)
        } else if name == "KEY_LEFTMETA".to_owned() {
            Ok(PasteKey::LeftMeta)
        } else if name == "KEY_RIGHTMETA".to_owned() {
            Ok(PasteKey::RightMeta)
        } else if name == "KEY_INSERT".to_owned() {
            Ok(PasteKey::Insert)
        } else if name == "KEY_V".to_owned() {
            Ok(PasteKey::V)
        } else if name == "KEY_SPACE".to_owned() {
            Ok(PasteKey::Space)
        } else if name == "KEY_ENTER".to_owned() {
            Ok(PasteKey::Enter)
        } else {
            Err(AppError::ConfigError(concat("Unsupported paste key: ", key_str)))
        }
    }

    /// The keys of a `+`-separated paste shortcut, such as
    /// `KEY_LEFTSHIFT+KEY_INSERT`; fails on its first unsupported piece.
    pub fn parse_shortcut(shortcut: &str) -> (res: Result<Vec<PasteKey>, AppError>)
        ensures
            match parse_shortcut_spec(shortcut@) {
                Ok(keys) => res matches Ok(v) && v@ == keys && keys.len() > 0,
                Err(bad) => res matches Err(AppError::ConfigError(m)) && m@
                    == unsupported_paste_key_text(bad),
            },
    {
        let pieces = split_pieces(shortcut, '+');
        let ghost parts = split_spec(shortcut@, '+');
        let mut keys: Vec<PasteKey> = Vec::new();
        let mut i: usize = 0;
        while i < pieces.len()
            invariant
                i <= pieces@.len(),
                parts == split_spec(shortcut@, '+'),
                pieces@.len() == parts.len(),
                forall|j: int| 0 <= j < pieces@.len() ==> #[trigger] pieces@[j]@ == parts[j],
                paste_keys_of(parts.take(i as int)) == Ok::<Seq<PasteKey>, Seq<char>>(keys@),
                keys@.len() == i,
            decreases pieces@.len() - i,
        {
            assert(parts.take(i + 1).drop_last() =~= parts.take(i as int));
            assert(parts.take(i + 1).last() == pieces@[i as int]@);
            match UinputSim::parse_uinput_key(pieces[i].as_str()) {
                Ok(k) => {
                    keys.push(k);
                },
                Err(e) => {
                    proof {
                        lemma_paste_error_prefix(parts, i as int + 1, pieces@[i as int]@);
                    }
                    return Err(e);
                },
            }
            i = i + 1;
        }
        assert(parts.take(i as int) =~= parts);
        proof {
            crate::text::lemma_split_nonempty(shortcut@, '+');
        }
        if keys.len() == 0 {
            return Err(AppError::ConfigError("Empty paste shortcut".to_owned()));
        }
        Ok(keys)
    }

    /// The virtual key actions that type `keys` as one shortcut.
    pub fn paste_steps(keys: &Vec<PasteKey>) -> (res: Vec<PasteStep>)
        ensures
            res@ == paste_steps_spec(keys@),
    {
        let mut steps: Vec<PasteStep> = Vec::new();
        let mut i: usize = 0;
        while i < keys.len()
            invariant
                i <= keys@.len(),
                steps@ == presses(keys@.take(i as int)),
            decreases keys@.len() - i,
        {
            steps.push(PasteStep::Press(keys[i]));
            i = i + 1;
            assert(steps@ =~= presses(keys@.take(i as int)));
        }
        assert(keys@.take(i as int) =~= keys@);
        steps.push(PasteStep::Synchronize);
        steps.push(PasteStep::Pause);
        let ghost head = presses(keys@) + seq![PasteStep::Synchronize, PasteStep::Pause];
        assert(steps@ =~= head);
        let mut j: usize = keys.len();
        while j > 0
            invariant
                j <= keys@.len(),
                steps@ == head + releases(keys@.subrange(j as int, keys@.len() as int)),
            decreases j,
        {
            j = j - 1;
            steps.push(PasteStep::Release(keys[j]));
            assert(steps@ =~= head + releases(keys@.subrange(j as int, keys@.len() as int)));
        }
        assert(keys@.subrange(0, keys@.len() as int) =~= keys@);
        steps.push(PasteStep::Synchronize);
        assert(steps@ =~= paste_steps_spec(keys@));
        steps
    }

    /// The virtual key actions that type the configured paste shortcut, or the
    /// error for a shortcut with an unsupported piece.
    pub fn paste_plan(shortcut: &str) -> (res: Result<Vec<PasteStep>, AppError>)
        ensures
            match parse_shortcut_spec(shortcut@) {
                Ok(keys) => res matches Ok(v) && v@ == paste_steps_spec(keys),
                Err(bad) => res matches Err(AppError::ConfigError(m)) && m@
                    == unsupported_paste_key_text(bad),
            },
    {
        let keys = UinputSim::parse_shortcut(shortcut)?;
        Ok(UinputSim::paste_steps(&keys))
    }
}

/// Each supported paste key name stands for the key of the same name.
pub proof fn lemma_paste_key_names_map_to_their_keys()
    ensures
        paste_key_spec("KEY_LEFTSHIFT"@) == Some(PasteKey::LeftShift),
        paste_key_spec("KEY_RIGHTSHIFT"@) == Some(PasteKey::RightShift),
        paste_key_spec("KEY_LEFTCTRL"@) == Some(PasteKey::LeftControl),
        paste_key_spec("KEY_RIGHTCTRL"@) == Some(PasteKey::RightControl),
        paste_key_spec("KEY_LEFTALT"@) == Some(PasteKey::LeftAlt),
        paste_key_spec("KEY_RIGHTALT"@) == Some(PasteKey::RightAlt),
        paste_key_spec("KEY_LEFTMETA"@) == Some(PasteKey::LeftMeta),
        paste_key_spec("KEY_RIGHTMETA"@) == Some(PasteKey::RightMeta),
        paste_key_spec("KEY_INSERT"@) == Some(PasteKey::Insert),
        paste_key_spec("KEY_V"@) == Some(PasteKey::V),
        paste_key_spec("KEY_SPACE"@) == Some(PasteKey::Space),
        paste_key_spec("KEY_ENTER"@) == Some(PasteKey::Enter),
{
    reveal_strlit("KEY_LEFTSHIFT");
    reveal_strlit("KEY_RIGHTSHIFT");
    reveal_strlit("KEY_LEFTCTRL");
    reveal_strlit("KEY_RIGHTCTRL");
    reveal_strlit("KEY_LEFTALT");
    reveal_strlit("KEY_RIGHTALT");
    reveal_strlit("KEY_LEFTMETA");
    reveal_strlit("KEY_RIGHTMETA");
    reveal_strlit("KEY_INSERT");
    reveal_strlit("KEY_V");
    reveal_strlit("KEY_SPACE");
    reveal_strlit("KEY_ENTER");
    assert("KEY_RIGHTSHIFT"@.len() != "KEY_LEFTSHIFT"@.len());
    assert("KEY_LEFTCTRL"@.len() != "KEY_LEFTSHIFT"@.len());
    assert("KEY_LEFTCTRL"@.len() != "KEY_RIGHTSHIFT"@.len());
    assert("KEY_RIGHTCTRL"@[4] != "KEY_LEFTSHIFT"@[4]);
    assert("KEY_RIGHTCTRL"@.len() != "KEY_RIGHTSHIFT"@.len());
    assert("KEY_RIGHTCTRL"@.len() != "KEY_LEFTCTRL"@.len());
    assert("KEY_LEFTALT"@.len() != "KEY_LEFTSHIFT"@.len());
    assert("KEY_LEFTALT"@.len() != "KEY_RIGHTSHIFT"@.len());
    assert("KEY_LEFTALT"@.len() != "KEY_LEFTCTRL"@.len());
    assert("KEY_LEFTALT"@.len() != "KEY_RIGHTCTRL"@.len());
    assert("KEY_RIGHTALT"@.len() != "KEY_LEFTSHIFT"@.len());
    assert("KEY_RIGHTALT"@.len() != "KEY_RIGHTSHIFT"@.len());
    assert("KEY_RIGHTALT"@[4] != "KEY_LEFTCTRL"@[4]);
    assert("KEY_RIGHTALT"@.len() != "KEY_RIGHTCTRL"@.len());
    assert("KEY_RIGHTALT"@.len() != "KEY_LEFTALT"@.len());
    assert("KEY_LEFTMETA"@.len() != "KEY_LEFTSHIFT"@.len());
    assert("KEY_LEFTMETA"@.len() != "KEY_RIGHTSHIFT"@.len());
    assert("KEY_LEFTMETA"@[8] != "KEY_LEFTCTRL"@[8]);
    assert("KEY_LEFTMETA"@.len() != "KEY_RIGHTCTRL"@.len());
    assert("KEY_LEFTMETA"@.len() != "KEY_LEFTALT"@.len());
    assert("KEY_LEFTMETA"@[4] != "KEY_RIGHTALT"@[4]);
    assert("KEY_RIGHTMETA"@[4] != "KEY_LEFTSHIFT"@[4]);
    assert("KEY_RIGHTMETA"@.len() != "KEY_RIGHTSHIFT"@.len());
    assert("KEY_RIGHTMETA"@.len() != "KEY_LEFTCTRL"@.len());
    assert("KEY_RIGHTMETA"@[9] != "KEY_RIGHTCTRL"@[9]);
    assert("KEY_RIGHTMETA"@.len() != "KEY_LEFTALT"@.len());
    assert("KEY_RIGHTMETA"@.len() != "KEY_RIGHTALT"@.len());
    assert("KEY_RIGHTMETA"@.len() != "KEY_LEFTMETA"@.len());
    assert("KEY_INSERT"@.len() != "KEY_LEFTSHIFT"@.len());
    assert("KEY_INSERT"@.len() != "KEY_RIGHTSHIFT"@.len());
    assert("KEY_INSERT"@.len() != "KEY_LEFTCTRL"@.len());
    assert("KEY_INSERT"@.len() != "KEY_RIGHTCTRL"@.len());
    assert("KEY_INSERT"@.len() != "KEY_LEFTALT"@.len());
    assert("KEY_INSERT"@.len() != "KEY_RIGHTALT"@.len());
    assert("KEY_INSERT"@.len() != "KEY_LEFTMETA"@.len());
    assert("KEY_INSERT"@.len() != "KEY_RIGHTMETA"@.len());
    assert("KEY_V"@.len() != "KEY_LEFTSHIFT"@.len());
    assert("KEY_V"@.len() != "KEY_RIGHTSHIFT"@.len());
    assert("KEY_V"@.len() != "KEY_LEFTCTRL"@.len());
    assert("KEY_V"@.len() != "KEY_RIGHTCTRL"@.len());
    assert("KEY_V"@.len() != "KEY_LEFTALT"@.len());
    assert("KEY_V"@.len() != "KEY_RIGHTALT"@.len());
    assert("KEY_V"@.len() != "KEY_LEFTMETA"@.len());
    assert("KEY_V"@.len() != "KEY_RIGHTMETA"@.len());
    assert("KEY_V"@.len() != "KEY_INSERT"@.len());
    assert("KEY_SPACE"@.len() != "KEY_LEFTSHIFT"@.len());
    assert("KEY_SPACE"@.len() != "KEY_RIGHTSHIFT"@.len());
    assert("KEY_SPACE"@.len() != "KEY_LEFTCTRL"@.len());
    assert("KEY_SPACE"@.len() != "KEY_RIGHTCTRL"@.len());
    assert("KEY_SPACE"@.len() != "KEY_LEFTALT"@.len());
    assert("KEY_SPACE"@.len() != "KEY_RIGHTALT"@.len());
    assert("KEY_SPACE"@.len() != "KEY_LEFTMETA"@.len());
    assert("KEY_SPACE"@.len() != "KEY_RIGHTMETA"@.len());
    assert("KEY_SPACE"@.len() != "KEY_INSERT"@.len());
    assert("KEY_SPACE"@.len() != "KEY_V"@.len());
    assert("KEY_ENTER"@.len() != "KEY_LEFTSHIFT"@.len());
    assert("KEY_ENTER"@.len() != "KEY_RIGHTSHIFT"@.len());
    assert("KEY_ENTER"@.len() != "KEY_LEFTCTRL"@.len());
    assert("KEY_ENTER"@.len() != "KEY_RIGHTCTRL"@.len());
    assert("KEY_ENTER"@.len() != "KEY_LEFTALT"@.len());
    assert("KEY_ENTER"@.len() != "KEY_RIGHTALT"@.len());
    assert("KEY_ENTER"@.len() != "KEY_LEFTMETA"@.len());
    assert("KEY_ENTER"@.len() != "KEY_RIGHTMETA"@.len());
    assert("KEY_ENTER"@.len() != "KEY_INSERT"@.len());
    assert("KEY_ENTER"@.len() != "KEY_V"@.len());
    assert("KEY_ENTER"@[4] != "KEY_SPACE"@[4]);
}

/// Different names never stand for the same key.
pub proof fn lemma_paste_key_names_distinct(a: Seq<char>, b: Seq<char>)
    requires
        paste_key_spec(a) is Some,
        paste_key_spec(a) == paste_key_spec(b),
    ensures
        a == b,
{
    lemma_paste_key_names_map_to_their_keys();
}

/// Supported names are plain words: no separator, no surrounding white
/// space.
proof fn lemma_paste_name_shape(n: Seq<char>)
    requires
        paste_key_spec(n) is Some,
    ensures
        n.len() > 0,
        !is_white_space_spec(n[0]),
        !is_white_space_spec(n.last()),
        forall|i: int| 0 <= i < n.len() ==> n[i] != '+',
{
    if n == "KEY_LEFTSHIFT"@ {
        reveal_strlit("KEY_LEFTSHIFT");
    } else if n == "KEY_RIGHTSHIFT"@ {
        reveal_strlit("KEY_RIGHTSHIFT");
    } else if n == "KEY_LEFTCTRL"@ {
        reveal_strlit("KEY_LEFTCTRL");
    } else if n == "KEY_RIGHTCTRL"@ {
        reveal_strlit("KEY_RIGHTCTRL");
    } else if n == "KEY_LEFTALT"@ {
        reveal_strlit("KEY_LEFTALT");
    } else if n == "KEY_RIGHTALT"@ {
        reveal_strlit("KEY_RIGHTALT");
    } else if n == "KEY_LEFTMETA"@ {
        reveal_strlit("KEY_LEFTMETA");
    } else if n == "KEY_RIGHTMETA"@ {
        reveal_strlit("KEY_RIGHTMETA");
    } else if n == "KEY_INSERT"@ {
        reveal_strlit("KEY_INSERT");
    } else if n == "KEY_V"@ {
        reveal_strlit("KEY_V");
    } else if n == "KEY_SPACE"@ {
        reveal_strlit("KEY_SPACE");
    } else if n == "KEY_ENTER"@ {
        reveal_strlit("KEY_ENTER");
    }
}

/// A shortcut of one supported name is typed as that key alone: pressed,
/// flushed, held, released, flushed.
pub proof fn lemma_single_key_shortcut(n: Seq<char>)
    requires
        paste_key_spec(n) is Some,
    ensures
        parse_shortcut_spec(n) == Ok::<Seq<PasteKey>, Seq<char>>(seq![paste_key_spec(n).unwrap()]),
        paste_steps_spec(seq![paste_key_spec(n).unwrap()]) == seq![
            PasteStep::Press(paste_key_spec(n).unwrap()),
            PasteStep::Synchronize,
            PasteStep::Pause,
            PasteStep::Release(paste_key_spec(n).unwrap()),
            PasteStep::Synchronize,
        ],
{
    lemma_paste_name_shape(n);
    lemma_split_single(n, '+');
    lemma_trim_unchanged(n);
    let k = paste_key_spec(n).unwrap();
    let parts = split_spec(n, '+');
    assert(parts =~= seq![n]);
    assert(parts.drop_last() =~= Seq::<Seq<char>>::empty());
    assert(paste_keys_of(parts.drop_last()) == Ok::<Seq<PasteKey>, Seq<char>>(Seq::empty()));
    assert(Seq::<PasteKey>::empty().push(k) =~= seq![k]);
    assert(presses(seq![k]) =~= seq![PasteStep::Press(k)]);
    assert(seq![k].reverse() =~= seq![k]);
    assert(releases(seq![k]) =~= seq![PasteStep::Release(k)]);
    assert(paste_steps_spec(seq![k]) =~= seq![
        PasteStep::Press(k),
        PasteStep::Synchronize,
        PasteStep::Pause,
        PasteStep::Release(k),
        PasteStep::Synchronize,
    ]);
}

/// A shortcut of two supported names joined by `+` presses the two keys in
/// order and releases them in reverse order.
pub proof fn lemma_two_key_shortcut(a: Seq<char>, b: Seq<char>)
    requires
        paste_key_spec(a) is Some,
        paste_key_spec(b) is Some,
    ensures
        ({
            let ka = paste_key_spec(a).unwrap();
            let kb = paste_key_spec(b).unwrap();
            &&& parse_shortcut_spec(a + seq!['+'] + b) == Ok::<Seq<PasteKey>, Seq<char>>(
                seq![ka, kb],
            )
            &&& paste_steps_spec(seq![ka, kb]) == seq![
                PasteStep::Press(ka),
                PasteStep::Press(kb),
                PasteStep::Synchronize,
                PasteStep::Pause,
                PasteStep::Release(kb),
                PasteStep::Release(ka),
                PasteStep::Synchronize,
            ]
        }),
{
    lemma_paste_name_shape(a);
    lemma_paste_name_shape(b);
    lemma_split_single(a, '+');
    lemma_split_append(a, '+', b);
    lemma_trim_unchanged(a);
    lemma_trim_unchanged(b);
    let ka = paste_key_spec(a).unwrap();
    let kb = paste_key_spec(b).unwrap();
    let parts = split_spec(a + seq!['+'] + b, '+');
    assert(parts =~= seq![a, b]);
    assert(parts.drop_last() =~= seq![a]);
    assert(parts.drop_last().drop_last() =~= Seq::<Seq<char>>::empty());
    assert(paste_keys_of(parts.drop_last().drop_last()) == Ok::<Seq<PasteKey>, Seq<char>>(
        Seq::empty(),
    ));
    assert(Seq::<PasteKey>::empty().push(ka) =~= seq![ka]);
    assert(paste_keys_of(parts.drop_last()) == Ok::<Seq<PasteKey>, Seq<char>>(seq![ka]));
    assert(seq![ka].push(kb) =~= seq![ka, kb]);
    assert(presses(seq![ka, kb]) =~= seq![PasteStep::Press(ka), PasteStep::Press(kb)]);
    assert(seq![ka, kb].reverse() =~= seq![kb, ka]);
    assert(releases(seq![ka, kb]) =~= seq![PasteStep::Release(kb), PasteStep::Release(ka)]);
    assert(paste_steps_spec(seq![ka, kb]) =~= seq![
        PasteStep::Press(ka),
        PasteStep::Press(kb),
        PasteStep::Synchronize,
        PasteStep::Pause,
        PasteStep::Release(kb),
        PasteStep::Release(ka),
        PasteStep::Synchronize,
    ]);
}

proof fn lemma_paste_error_prefix(parts: Seq<Seq<char>>, k: int, bad: Seq<char>)
    requires
        0 < k <= parts.len(),
        paste_keys_of(parts.take(k)) == Err::<Seq<PasteKey>, Seq<char>>(bad),
    ensures
        paste_keys_of(parts) == Err::<Seq<PasteKey>, Seq<char>>(bad),
    decreases parts.len() - k,
{
    if k < parts.len() {
        assert(parts.take(k + 1).drop_last() =~= parts.take(k));
        lemma_paste_error_prefix(parts, k + 1, bad);
    } else {
        assert(parts.take(k) =~= parts);
    }
}

/// Typing a shortcut presses every key once, in order, and releases every key
/// once, in reverse order, with the keys held across the pause.
pub proof fn lemma_release_mirrors_press(keys: Seq<PasteKey>)
    ensures
        ({
            let steps = paste_steps_spec(keys);
            let n = keys.len() as int;
            &&& steps.len() == 2 * n + 3
            &&& forall|i: int| 0 <= i < n ==> steps[i] == PasteStep::Press(#[trigger] keys[i])
            &&& steps[n] == PasteStep::Synchronize
            &&& steps[n + 1] == PasteStep::Pause
            &&& forall|i: int|
                0 <= i < n ==> steps[n + 2 + i] == PasteStep::Release(#[trigger] keys[n - 1 - i])
            &&& steps[2 * n + 2] == PasteStep::Synchronize
        }),
{
    let steps = paste_steps_spec(keys);
    let n = keys.len() as int;
    assert forall|i: int| 0 <= i < n implies steps[n + 2 + i] == PasteStep::Release(
        #[trigger] keys[n - 1 - i],
    ) by {
        assert(releases(keys)[i] == PasteStep::Release(keys.reverse()[i]));
    }
}

} // verus!

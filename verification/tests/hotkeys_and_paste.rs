use mouthwrite_linux::config::HotkeysConfig;
use mouthwrite_linux::error::AppError;
use mouthwrite_linux::input::evdev_hook::{
    EvdevHook, BTN_LEFT, KEY_LEFTALT, KEY_LEFTCTRL, KEY_LEFTMETA, KEY_LEFTSHIFT, KEY_RIGHTALT,
    KEY_RIGHTCTRL, KEY_RIGHTMETA, KEY_RIGHTSHIFT, KEY_SPACE,
};
use mouthwrite_linux::input::uinput_sim::{PasteKey, PasteStep, UinputSim};
use mouthwrite_linux::input::InputEvent;

fn hotkeys(direct: &str, translate: &str) -> HotkeysConfig {
    HotkeysConfig {
        direct_mode: direct.to_string(),
        translate_mode: translate.to_string(),
        paste_shortcut: "KEY_LEFTSHIFT+KEY_INSERT".to_string(),
        start_cue_delay_ms: 800,
    }
}

fn config_message(e: AppError) -> String {
    match e {
        AppError::ConfigError(m) => m,
        other => panic!("unexpected error {}", other.describe()),
    }
}

#[test]
fn key_codes_match_evdev() {
    assert_eq!(KEY_LEFTCTRL, evdev::Key::KEY_LEFTCTRL.code());
    assert_eq!(KEY_RIGHTCTRL, evdev::Key::KEY_RIGHTCTRL.code());
    assert_eq!(KEY_LEFTSHIFT, evdev::Key::KEY_LEFTSHIFT.code());
    assert_eq!(KEY_RIGHTSHIFT, evdev::Key::KEY_RIGHTSHIFT.code());
    assert_eq!(KEY_LEFTALT, evdev::Key::KEY_LEFTALT.code());
    assert_eq!(KEY_RIGHTALT, evdev::Key::KEY_RIGHTALT.code());
    assert_eq!(KEY_LEFTMETA, evdev::Key::KEY_LEFTMETA.code());
    assert_eq!(KEY_RIGHTMETA, evdev::Key::KEY_RIGHTMETA.code());
    assert_eq!(KEY_SPACE, evdev::Key::KEY_SPACE.code());
    assert_eq!(BTN_LEFT, evdev::Key::BTN_LEFT.code());
}

#[test]
fn parse_keys_trims_and_maps() {
    let keys = match EvdevHook::parse_keys(" KEY_RIGHTALT + KEY_RIGHTCTRL ") {
        Ok(k) => k,
        Err(e) => panic!("{}", e.describe()),
    };
    assert_eq!(keys, vec![KEY_RIGHTALT, KEY_RIGHTCTRL]);
}

#[test]
fn parse_keys_reports_first_unknown_name() {
    match EvdevHook::parse_keys("KEY_RIGHTALT+ KEY_F13 +KEY_X") {
        Ok(_) => panic!("accepted an unknown key"),
        Err(e) => assert_eq!(config_message(e), "Unsupported or invalid key: KEY_F13"),
    }
}

#[test]
fn new_rejects_bad_translate_combination() {
    match EvdevHook::new(&hotkeys("KEY_RIGHTALT", "KEY_RIGHTALT+")) {
        Ok(_) => panic!("accepted an empty key name"),
        Err(e) => assert_eq!(config_message(e), "Unsupported or invalid key: "),
    }
}

fn hook() -> EvdevHook {
    match EvdevHook::new(&hotkeys("KEY_RIGHTALT", "KEY_RIGHTALT+KEY_RIGHTCTRL")) {
        Ok(h) => h,
        Err(e) => panic!("{}", e.describe()),
    }
}

#[test]
fn direct_hotkey_press_and_release() {
    let mut h = hook();
    assert_eq!(h.handle_key(KEY_RIGHTALT, 1), vec![InputEvent::DirectModePressed]);
    assert_eq!(h.handle_key(KEY_RIGHTALT, 2), vec![]);
    assert_eq!(h.handle_key(KEY_RIGHTALT, 0), vec![InputEvent::DirectModeReleased]);
}

#[test]
fn translate_combination_preempts_direct() {
    let mut h = hook();
    assert_eq!(h.handle_key(KEY_RIGHTALT, 1), vec![InputEvent::DirectModePressed]);
    assert_eq!(
        h.handle_key(KEY_RIGHTCTRL, 1),
        vec![InputEvent::TranslateModePressed, InputEvent::DirectModeReleased]
    );
    assert_eq!(
        h.handle_key(KEY_RIGHTCTRL, 0),
        vec![InputEvent::TranslateModeReleased, InputEvent::DirectModePressed]
    );
    assert_eq!(h.handle_key(KEY_RIGHTALT, 0), vec![InputEvent::DirectModeReleased]);
}

#[test]
fn either_ctrl_key_counts() {
    let mut h = hook();
    assert_eq!(h.handle_key(KEY_LEFTCTRL, 1), vec![]);
    assert_eq!(h.handle_key(KEY_RIGHTALT, 1), vec![InputEvent::TranslateModePressed]);
    // Releasing the other Ctrl key releases both.
    assert_eq!(h.handle_key(KEY_RIGHTCTRL, 0), vec![
        InputEvent::TranslateModeReleased,
        InputEvent::DirectModePressed,
    ]);
}

#[test]
fn mouse_click_on_release_only() {
    let mut h = hook();
    assert_eq!(h.handle_key(BTN_LEFT, 1), vec![]);
    assert_eq!(h.handle_key(BTN_LEFT, 0), vec![InputEvent::MouseLeftClicked]);
    // Other buttons are passed over and leave the held keys alone.
    assert_eq!(h.handle_key(0x111, 1), vec![]);
    assert_eq!(h.handle_key(KEY_RIGHTALT, 1), vec![InputEvent::DirectModePressed]);
}

#[test]
fn reset_forgets_held_keys() {
    let mut h = hook();
    assert_eq!(h.handle_key(KEY_RIGHTALT, 1), vec![InputEvent::DirectModePressed]);
    h.reset();
    assert_eq!(h.handle_key(KEY_RIGHTALT, 0), vec![]);
    assert_eq!(h.handle_key(KEY_RIGHTALT, 1), vec![InputEvent::DirectModePressed]);
}

#[test]
fn paste_key_names() {
    assert_eq!(UinputSim::parse_uinput_key(" KEY_V ").ok(), Some(PasteKey::V));
    assert_eq!(UinputSim::parse_uinput_key("KEY_INSERT").ok(), Some(PasteKey::Insert));
    match UinputSim::parse_uinput_key(" KEY_Q") {
        Ok(_) => panic!("accepted an unsupported paste key"),
        Err(e) => assert_eq!(config_message(e), "Unsupported paste key:  KEY_Q"),
    }
}

#[test]
fn paste_plan_presses_then_releases_in_reverse() {
    let plan = match UinputSim::paste_plan("KEY_LEFTCTRL+KEY_V") {
        Ok(p) => p,
        Err(e) => panic!("{}", e.describe()),
    };
    assert_eq!(
        plan,
        vec![
            PasteStep::Press(PasteKey::LeftControl),
            PasteStep::Press(PasteKey::V),
            PasteStep::Synchronize,
            PasteStep::Pause,
            PasteStep::Release(PasteKey::V),
            PasteStep::Release(PasteKey::LeftControl),
            PasteStep::Synchronize,
        ]
    );
}

#[test]
fn paste_plan_rejects_empty_shortcut() {
    match UinputSim::paste_plan("") {
        Ok(_) => panic!("accepted an empty shortcut"),
        Err(e) => assert_eq!(config_message(e), "Unsupported paste key: "),
    }
}

#[test]
fn extra_held_key_does_not_block_hotkey() {
    let mut h = hook();
    assert_eq!(h.handle_key(KEY_SPACE, 1), vec![]);
    assert_eq!(h.handle_key(KEY_RIGHTALT, 1), vec![InputEvent::DirectModePressed]);
}

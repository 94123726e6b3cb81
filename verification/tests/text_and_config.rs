use mouthwrite_linux::config::{default_false, default_start_cue_delay_ms, join_path, Config};
use mouthwrite_linux::error::AppError;
use mouthwrite_linux::logging::log_dir;
use mouthwrite_linux::text::{decimal_string, split_pieces, trim};

#[test]
fn split_keeps_empty_pieces() {
    assert_eq!(split_pieces("a+b", '+'), vec!["a".to_string(), "b".to_string()]);
    assert_eq!(split_pieces("", '+'), vec!["".to_string()]);
    assert_eq!(split_pieces("+x+", '+'), vec!["".to_string(), "x".to_string(), "".to_string()]);
}

#[test]
fn trim_removes_unicode_white_space() {
    assert_eq!(trim("  KEY_V\t\n"), "KEY_V");
    assert_eq!(trim("\u{3000}text\u{a0}"), "text");
    assert_eq!(trim("   "), "");
    assert_eq!(trim("a b"), "a b");
}

#[test]
fn decimal_rendering() {
    assert_eq!(decimal_string(0), "0");
    assert_eq!(decimal_string(404), "404");
    assert_eq!(decimal_string(65535), "65535");
}

#[test]
fn configuration_defaults() {
    assert!(!default_false());
    assert_eq!(default_start_cue_delay_ms(), 800);
}

#[test]
fn config_path_prefers_platform_directory() {
    let p = Config::config_path(Some("/home/u/.config".to_string()), Some("/home/u".to_string()));
    assert_eq!(p, "/home/u/.config/mouthwrite/config.toml");
}

#[test]
fn config_path_falls_back_to_home_then_tmp() {
    let p = Config::config_path(None, Some("/home/u".to_string()));
    assert_eq!(p, "/home/u/.config/mouthwrite/config.toml");
    let p = Config::config_path(None, None);
    assert_eq!(p, "/tmp/mouthwrite/config.toml");
    let d = Config::config_dir(None, None);
    assert_eq!(d, "/tmp/mouthwrite");
}

#[test]
fn join_path_adds_one_separator() {
    assert_eq!(join_path("/a/", "b"), "/a/b");
    assert_eq!(join_path("/a", "b"), "/a/b");
    assert_eq!(join_path("", "b"), "b");
}

#[test]
fn log_dir_fallbacks() {
    assert_eq!(log_dir(Some("/s".to_string()), Some("/h".to_string())), "/s/mouthwrite");
    assert_eq!(log_dir(None, Some("/h".to_string())), "/h/.local/state/mouthwrite");
    assert_eq!(log_dir(None, None), "/tmp/mouthwrite");
}

#[test]
fn error_descriptions() {
    assert_eq!(
        AppError::ConfigError("x".to_string()).describe(),
        "Configuration error: x"
    );
    assert_eq!(AppError::NetworkError("down".to_string()).describe(), "Network error: down");
    assert_eq!(AppError::InputError("i".to_string()).describe(), "Input event error: i");
    assert_eq!(AppError::AudioError("a".to_string()).describe(), "Audio system error: a");
    assert_eq!(
        AppError::HttpError(401, "denied".to_string()).describe(),
        "HTTP error 401: denied"
    );
    assert_eq!(
        AppError::InternalError("bug".to_string()).describe(),
        "Internal application error: bug"
    );
}

//! Configuration sections, their defaults, and where the configuration file
//! lives.
use vstd::prelude::*;
use crate::text::{chars_of, concat, copy_str};

verus! {

/// The whole configuration file.
#[derive(Debug, Clone)]
pub struct Config {
    pub hotkeys: HotkeysConfig,
    pub asr: AsrConfig,
    pub llm: LlmConfig,
    pub translation: TranslationConfig,
}

/// Hotkey combinations (key names joined by `+`) and the paste shortcut.
#[derive(Debug, Clone)]
pub struct HotkeysConfig {
    pub direct_mode: String,
    pub translate_mode: String,
    pub paste_shortcut: String,
    pub start_cue_delay_ms: u64,
}

/// The speech recognition endpoint.
#[derive(Debug, Clone)]
pub struct AsrConfig {
    pub api_url: String,
    pub api_key: String,
    pub model: String,
}

/// The text optimisation endpoint.
#[derive(Debug, Clone)]
pub struct LlmConfig {
    pub api_url: String,
    pub api_key: String,
    pub model: String,
    pub system_prompt: String,
    pub enable_thinking: bool,
}

/// The translation endpoint.
#[derive(Debug, Clone)]
pub struct TranslationConfig {
    pub api_url: String,
    pub api_key: String,
    pub model: String,
    pub source_lang: String,
    pub target_lang: String,
    pub enable_thinking: bool,
}

/// Value of `enable_thinking` when a section leaves it out.
pub fn default_false() -> (res: bool)
    ensures
        res == false,
{
    false
}

/// Value of `start_cue_delay_ms` when the hotkeys section leaves it out.
pub fn default_start_cue_delay_ms() -> (res: u64)
    ensures
        res == 800,
{
    800
}

/// `name` adjoined to the directory `base`, with one `/` between them.
pub open spec fn join_spec(base: Seq<char>, name: Seq<char>) -> Seq<char> {
    if base.len() == 0 {
        name
    } else if base.last() == '/' {
        base + name
    } else {
        base + "/"@ + name
    }
}

/// The first directory that is known: `primary`, else the directory that
/// `beside_home` names relative to `home`, else `/tmp`.
pub open spec fn fallback_dir_spec(
    primary: Option<String>,
    home: Option<String>,
    beside_home: spec_fn(Seq<char>) -> Seq<char>,
) -> Seq<char> {
    match primary {
        Some(p) => p@,
        None => match home {
            Some(h) => beside_home(h@),
            None => "/tmp"@,
        },
    }
}

/// The directory that holds the configuration file.
pub open spec fn config_dir_spec(config_dir: Option<String>, home_dir: Option<String>) -> Seq<
    char,
> {
    join_spec(
        fallback_dir_spec(config_dir, home_dir, |h: Seq<char>| join_spec(h, ".config"@)),
        "mouthwrite"@,
    )
}

/// `name` adjoined to the directory `base` (as `Path::join` with a relative
/// name).
pub fn join_path(base: &str, name: &str) -> (res: String)
    ensures
        res@ == join_spec(base@, name@),
{
    let v = chars_of(base);
    if v.len() == 0 {
        copy_str(name)
    } else if v[v.len() - 1] == '/' {
        concat(base, name)
    } else {
        let with_sep = concat(base, "/");
        concat(with_sep.as_str(), name)
    }
}

/// Where the configuration file lives: `mouthwrite/config.toml` inside the
/// platform's configuration directory, else inside `.config` in the home
/// directory, else inside `/tmp`.
pub proof fn lemma_config_path_locations(p: String, h: String, other: Option<String>)
    requires
        p@.len() > 0,
        p@.last() != '/',
        h@.len() > 0,
        h@.last() != '/',
    ensures
        join_spec(config_dir_spec(Some(p), other), "config.toml"@) == p@
            + "/mouthwrite/config.toml"@,
        join_spec(config_dir_spec(None, Some(h)), "config.toml"@) == h@
            + "/.config/mouthwrite/config.toml"@,
        join_spec(config_dir_spec(None, None), "config.toml"@) == "/tmp/mouthwrite/config.toml"@,
{
    reveal_strlit("/");
    reveal_strlit("mouthwrite");
    reveal_strlit("config.toml");
    reveal_strlit(".config");
    reveal_strlit("/tmp");
    reveal_strlit("/mouthwrite/config.toml");
    reveal_strlit("/.config/mouthwrite/config.toml");
    reveal_strlit("/tmp/mouthwrite/config.toml");
    let a = p@ + "/"@ + "mouthwrite"@;
    assert(a.last() == 'e');
    assert(a + "/"@ + "config.toml"@ =~= p@ + "/mouthwrite/config.toml"@);
    let c = h@ + "/"@ + ".config"@;
    assert(c.last() == 'g');
    let d = c + "/"@ + "mouthwrite"@;
    assert(d.last() == 'e');
    assert(d + "/"@ + "config.toml"@ =~= h@ + "/.config/mouthwrite/config.toml"@);
    let t = "/tmp"@ + "/"@ + "mouthwrite"@;
    assert(t.last() == 'e');
    assert(t + "/"@ + "config.toml"@ =~= "/tmp/mouthwrite/config.toml"@);
}

impl Config {
    /// The configuration directory, given the platform's configuration
    /// directory and the home directory as far as they are known.
    pub fn config_dir(config_dir: Option<String>, home_dir: Option<String>) -> (res: String)
        ensures
            res@ == config_dir_spec(config_dir, home_dir),
    {
        let base = match config_dir {
            Some(p) => p,
            None => match home_dir {
                Some(h) => join_path(h.as_str(), ".config"),
                None => copy_str("/tmp"),
            },
        };
        join_path(base.as_str(), "mouthwrite")
    }

    /// The configuration file, given the platform's configuration directory
    /// and the home directory as far as they are known.
    pub fn config_path(config_dir: Option<String>, home_dir: Option<String>) -> (res: String)
        ensures
            res@ == join_spec(config_dir_spec(config_dir, home_dir), "config.toml"@),
    {
        let dir = Config::config_dir(config_dir, home_dir);
        join_path(dir.as_str(), "config.toml")
    }
}

} // verus!

//! Where the log files go.
use vstd::prelude::*;
use crate::config::{fallback_dir_spec, join_path, join_spec};
use crate::text::copy_str;

verus! {

/// The log directory: `mouthwrite` in the platform's state directory, else in
/// `.local/state` under the home directory, else in `/tmp`.
pub open spec fn log_dir_spec(state_dir: Option<String>, home_dir: Option<String>) -> Seq<char> {
    join_spec(
        fallback_dir_spec(
            state_dir,
            home_dir,
            |h: Seq<char>| join_spec(join_spec(h, ".local"@), "state"@),
        ),
        "mouthwrite"@,
    )
}

/// Where logs go: `mouthwrite` inside the platform's state directory, else
/// inside `.local/state` in the home directory, else inside `/tmp`.
pub proof fn lemma_log_dir_locations(st: String, h: String, other: Option<String>)
    requires
        st@.len() > 0,
        st@.last() != '/',
        h@.len() > 0,
        h@.last() != '/',
    ensures
        log_dir_spec(Some(st), other) == st@ + "/mouthwrite"@,
        log_dir_spec(None, Some(h)) == h@ + "/.local/state/mouthwrite"@,
        log_dir_spec(None, None) == "/tmp/mouthwrite"@,
{
    reveal_strlit("/");
    reveal_strlit("mouthwrite");
    reveal_strlit(".local");
    reveal_strlit("state");
    reveal_strlit("/tmp");
    reveal_strlit("/mouthwrite");
    reveal_strlit("/.local/state/mouthwrite");
    reveal_strlit("/tmp/mouthwrite");
    assert(st@ + "/"@ + "mouthwrite"@ =~= st@ + "/mouthwrite"@);
    let a = h@ + "/"@ + ".local"@;
    assert(a.last() == 'l');
    let b = a + "/"@ + "state"@;
    assert(b.last() == 'e');
    assert(b + "/"@ + "mouthwrite"@ =~= h@ + "/.local/state/mouthwrite"@);
    assert("/tmp"@.last() == 'p');
    assert("/tmp"@ + "/"@ + "mouthwrite"@ =~= "/tmp/mouthwrite"@);
}

/// The log directory, given the platform's state directory and the home
/// directory as far as they are known.
pub fn log_dir(state_dir: Option<String>, home_dir: Option<String>) -> (res: String)
    ensures
        res@ == log_dir_spec(state_dir, home_dir),
{
    let base = match state_dir {
        Some(p) => p,
        None => match home_dir {
            Some(h) => {
                let local = join_path(h.as_str(), ".local");
                join_path(local.as_str(), "state")
            },
            None => copy_str("/tmp"),
        },
    };
    join_path(base.as_str(), "mouthwrite")
}

} // verus!

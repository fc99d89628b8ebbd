//! Daemon configuration: an immutable snapshot of the model path, the
//! transcription language and the recording length cap.
//!
//! Reading configuration files and environment variables is the binary's
//! job; this module holds the rules that are pure: the fallback values,
//! how command-line overrides are applied, and how a bare model name is
//! resolved against the known model directories.

use vstd::prelude::*;
use crate::text::{file_name_part, file_name_of};

verus! {

/// Configuration snapshot owned by the session loop.
pub struct SttConfig {
    /// Path of the speech-recognition model file.
    pub model_path: String,
    /// Language the transcription backend is asked for.
    pub language: String,
    /// Cap on the length of one recording, in seconds.
    pub max_recording_seconds: u32,
}

impl Clone for SttConfig {
    fn clone(&self) -> (r: Self)
        ensures
            r == *self,
    {
        SttConfig {
            model_path: self.model_path.clone(),
            language: self.language.clone(),
            max_recording_seconds: self.max_recording_seconds,
        }
    }
}

impl Default for SttConfig {
    /// The values the daemon falls back to when no configuration source
    /// yields a usable snapshot.
    fn default() -> (r: Self)
        ensures
            r.model_path@ == "ggml-base.bin"@,
            r.language@ == "es"@,
            r.max_recording_seconds == 600,
    {
        SttConfig {
            model_path: String::from_str("ggml-base.bin"),
            language: String::from_str("es"),
            max_recording_seconds: 600,
        }
    }
}

/// Applies the command-line overrides to a configuration snapshot:
/// each given value replaces the configured one, absent values leave it.
pub fn apply_overrides(
    cfg: SttConfig,
    model: Option<String>,
    language: Option<String>,
    max_recording_seconds: Option<u32>,
) -> (r: SttConfig)
    ensures
        r.model_path == (match model {
            Some(m) => m,
            None => cfg.model_path,
        }),
        r.language == (match language {
            Some(l) => l,
            None => cfg.language,
        }),
        r.max_recording_seconds == (match max_recording_seconds {
            Some(s) => s,
            None => cfg.max_recording_seconds,
        }),
{
    let mut cfg = cfg;
    match model {
        Some(m) => {
            cfg.model_path = m;
        },
        None => {},
    }
    match language {
        Some(l) => {
            cfg.language = l;
        },
        None => {},
    }
    match max_recording_seconds {
        Some(s) => {
            cfg.max_recording_seconds = s;
        },
        None => {},
    }
    cfg
}

/// The places a bare model file name is looked for, in order of
/// precedence: the user's data directory, the system directory, a
/// `models` directory next to the daemon, and the name itself.
pub fn model_path_candidates(home: &str, model_path: &str) -> (r: Vec<String>)
    ensures
        r@.len() == 4,
        r@[0]@ == home@ + "/.local/share/stt-assistant/models/"@ + file_name_part(model_path@),
        r@[1]@ == "/usr/share/stt-assistant/models/"@ + file_name_part(model_path@),
        r@[2]@ == "models/"@ + file_name_part(model_path@),
        r@[3]@ == file_name_part(model_path@),
{
    let fname = file_name_of(model_path);
    let mut user_dir = String::from_str(home);
    user_dir.append("/.local/share/stt-assistant/models/");
    user_dir.append(fname);
    let mut system_dir = String::from_str("/usr/share/stt-assistant/models/");
    system_dir.append(fname);
    let mut local_dir = String::from_str("models/");
    local_dir.append(fname);
    let mut r: Vec<String> = Vec::new();
    r.push(user_dir);
    r.push(system_dir);
    r.push(local_dir);
    r.push(String::from_str(fname));
    r
}

/// Index of the first `true` in `s`, or `-1` if there is none.
pub open spec fn first_true(s: Seq<bool>) -> int
    decreases s.len(),
{
    if s.len() == 0 {
        -1
    } else if s[0] {
        0
    } else if first_true(s.drop_first()) == -1 {
        -1
    } else {
        1 + first_true(s.drop_first())
    }
}

proof fn lemma_first_true_at(s: Seq<bool>, i: int)
    requires
        0 <= i <= s.len(),
        forall|k: int| 0 <= k < i ==> !s[k],
        i < s.len() ==> s[i],
    ensures
        first_true(s) == if i < s.len() {
            i
        } else {
            -1
        },
    decreases i,
{
    if i == 0 {
        if s.len() > 0 && !s[0] {
            lemma_first_true_at(s.drop_first(), 0);
        }
    } else {
        lemma_first_true_at(s.drop_first(), i - 1);
    }
}

/// Picks the first candidate that was found to exist; keeps the
/// configured path when none of them does.
pub fn choose_model_path(current: String, candidates: &Vec<String>, exist: &Vec<bool>) -> (r:
    String)
    requires
        candidates@.len() == exist@.len(),
    ensures
        first_true(exist@) == -1 ==> r == current,
        first_true(exist@) != -1 ==> r == candidates@[first_true(exist@)],
{
    let n = candidates.len();
    let mut i: usize = 0;
    while i < n
        invariant
            0 <= i <= n,
            n == candidates@.len(),
            n == exist@.len(),
            forall|k: int| 0 <= k < i ==> !exist@[k],
        decreases n - i,
    {
        if exist[i] {
            proof {
                lemma_first_true_at(exist@, i as int);
            }
            return candidates[i].clone();
        }
        i = i + 1;
    }
    proof {
        lemma_first_true_at(exist@, n as int);
    }
    current
}

} // verus!

//! Locations and names of the speech-recognition model files, and the
//! download addresses the model manager fetches them from.
//!
//! The manager looks for models in two places: a per-user directory under
//! the platform's local data directory, and a fixed system-wide directory.
//! Downloading itself is the binary's job; the names and addresses are
//! computed here.

use vstd::prelude::*;
use crate::text::last_slash;

verus! {

/// Relies on `dirs::data_local_dir`: the platform's per-user local data
/// directory, determined by the environment; nothing is promised of the
/// value. `None` when the platform defines no such directory or its path
/// is not valid UTF-8.
#[verifier::external_body]
fn data_local_dir_string() -> (r: Option<String>) {
    dirs::data_local_dir().and_then(|p| p.to_str().map(|s| s.to_string()))
}

/// Directory where the current user's models are kept: the platform's
/// local data directory plus `/telora/models`. `None` when the platform
/// defines no data directory.
pub fn get_local_models_dir() -> (r: Option<String>)
    ensures
        r matches Some(p) ==> exists|base: Seq<char>| p@ == base + "/telora/models"@,
{
    match data_local_dir_string() {
        Some(base) => {
            let ghost base_view = base@;
            let mut p = base;
            p.append("/telora/models");
            proof {
                assert(p@ == base_view + "/telora/models"@);
            }
            Some(p)
        },
        None => None,
    }
}

/// Directory where models shared by every user of the machine are kept.
pub fn get_global_models_dir() -> (r: String)
    ensures
        r@ == "/usr/share/telora/models"@,
{
    String::from_str("/usr/share/telora/models")
}

/// File name a model is stored under.
pub fn model_file_name(name: &str) -> (r: String)
    ensures
        r@ == "ggml-"@ + name@ + ".bin"@,
{
    let mut s = String::from_str("ggml-");
    s.append(name);
    s.append(".bin");
    s
}

/// Address a model of this name is downloaded from.
pub fn model_download_url(name: &str) -> (r: String)
    ensures
        r@ == "https://huggingface.co/ggerganov/whisper.cpp/resolve/main/ggml-"@ + name@
            + ".bin"@,
{
    let mut s = String::from_str("https://huggingface.co/ggerganov/whisper.cpp/resolve/main/ggml-");
    s.append(name);
    s.append(".bin");
    s
}

/// The file name at the end of a download address: what follows the last
/// `/`, the whole address when it has none, and nothing when the address
/// ends in `/` — the caller must then name the file itself.
pub fn file_name_from_url(url: &str) -> (r: Option<String>)
    ensures
        last_slash(url@) == -1 ==> (r matches Some(f) && f@ == url@),
        last_slash(url@) == url@.len() - 1 && url@.len() > 0 ==> r is None,
        0 <= last_slash(url@) < url@.len() - 1 ==> (r matches Some(f) && f@ == url@.subrange(
            last_slash(url@) + 1,
            url@.len() as int,
        )),
{
    let n = url.unicode_len();
    match crate::text::find_last_slash(url) {
        None => Some(String::from_str(url)),
        Some(j) => {
            if j + 1 == n {
                None
            } else {
                Some(String::from_str(url.substring_char(j + 1, n)))
            }
        },
    }
}

/// A file's path inside a models directory.
pub fn join_path(dir: &str, file: &str) -> (r: String)
    ensures
        r@ == dir@ + "/"@ + file@,
{
    let mut s = String::from_str(dir);
    s.append("/");
    s.append(file);
    s
}

} // verus!

//! What becomes of the transcription backend's output: joining its segment
//! texts into one transcript, and tagging a backend failure as error text
//! that is delivered in place of a transcript rather than dropped.

use vstd::prelude::*;
use crate::text::{trim_spec, trimmed};

verus! {

/// The segment texts laid end to end, each followed by one space.
pub open spec fn joined_segments(parts: Seq<Seq<char>>) -> Seq<char>
    decreases parts.len(),
{
    if parts.len() == 0 {
        Seq::<char>::empty()
    } else {
        joined_segments(parts.drop_last()) + parts.last() + " "@
    }
}

/// Joins the backend's segment texts into the final transcript: each
/// segment followed by one space, the whole then trimmed.
pub fn join_segments(parts: &Vec<String>) -> (r: String)
    ensures
        r@ == trim_spec(joined_segments(parts.deep_view())),
{
    let mut out = String::new();
    let n = parts.len();
    let mut i: usize = 0;
    while i < n
        invariant
            0 <= i <= n,
            n == parts@.len(),
            out@ == joined_segments(parts.deep_view().take(i as int)),
        decreases n - i,
    {
        out.append(parts[i].as_str());
        out.append(" ");
        proof {
            let dv = parts.deep_view();
            assert(dv.take(i + 1).drop_last() =~= dv.take(i as int));
            assert(dv.take(i + 1).last() == dv[i as int]);
        }
        i = i + 1;
    }
    proof {
        assert(parts.deep_view().take(n as int) =~= parts.deep_view());
    }
    String::from_str(trimmed(out.as_str()))
}

/// The error-tagged text delivered when the backend fails: never dropped,
/// it reaches the caller (or the pending result) in place of a transcript.
pub fn error_text(msg: &str) -> (r: String)
    ensures
        r@ == "ERROR: "@ + msg@,
{
    let mut s = String::from_str("ERROR: ");
    s.append(msg);
    s
}

} // verus!

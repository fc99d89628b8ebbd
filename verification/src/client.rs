//! The client's pure decisions: where the daemon and control endpoints
//! live, what a control token means, how a `STOP` reply is classified, and
//! how a long model path is shortened for the status table.
//!
//! The transport itself — connecting, reading, writing — lives in the
//! binary; it feeds the received text into these functions.

use vstd::prelude::*;
use crate::text::{trim_spec, trimmed, str_eq};

verus! {

/// The client's end of the daemon and control sockets.
pub struct SocketClient;

impl SocketClient {
    /// Where the daemon listens for commands.
    pub fn daemon_socket_path() -> (r: &'static str)
        ensures
            r@ == "/tmp/stt-sock"@,
    {
        "/tmp/stt-sock"
    }

    /// Where the client listens for control tokens (toggles, auto-stop).
    pub fn control_socket_path() -> (r: &'static str)
        ensures
            r@ == "/tmp/stt-control.sock"@,
    {
        "/tmp/stt-control.sock"
    }
}

/// One token received on the control socket.
pub enum ControlCommand {
    /// Toggle recording; on stop, type the transcript.
    ToggleType,
    /// Toggle recording; on stop, copy the transcript.
    ToggleCopy,
    /// Cancel the recording.
    Cancel,
    /// The daemon force-stopped the recording at the length cap.
    AutoStop,
    /// Anything else; ignored.
    Ignored,
}

/// Parses one control token, ignoring surrounding whitespace.
pub fn parse_control_command(line: &str) -> (r: ControlCommand)
    ensures
        (r is ToggleType) <==> trim_spec(line@) == "TOGGLE_TYPE"@,
        (r is ToggleCopy) <==> trim_spec(line@) == "TOGGLE_COPY"@,
        (r is Cancel) <==> trim_spec(line@) == "CANCEL"@,
        (r is AutoStop) <==> trim_spec(line@) == "AUTO_STOP"@,
{
    proof {
        reveal_strlit("TOGGLE_TYPE");
        reveal_strlit("TOGGLE_COPY");
        reveal_strlit("CANCEL");
        reveal_strlit("AUTO_STOP");
        assert("TOGGLE_TYPE"@.len() == 11);
        assert("TOGGLE_COPY"@.len() == 11);
        assert("CANCEL"@.len() == 6);
        assert("AUTO_STOP"@.len() == 9);
        assert("TOGGLE_TYPE"@[7] == 'T');
        assert("TOGGLE_COPY"@[7] == 'C');
    }
    let t = trimmed(line);
    if str_eq(t, "TOGGLE_TYPE") {
        ControlCommand::ToggleType
    } else if str_eq(t, "TOGGLE_COPY") {
        ControlCommand::ToggleCopy
    } else if str_eq(t, "CANCEL") {
        ControlCommand::Cancel
    } else if str_eq(t, "AUTO_STOP") {
        ControlCommand::AutoStop
    } else {
        ControlCommand::Ignored
    }
}

/// A reply that carries the daemon's error tag.
pub open spec fn is_error_tagged(s: Seq<char>) -> bool {
    s.len() >= 6 && s.subrange(0, 6) == "ERROR:"@
}

/// What a `STOP` reply asks of the client.
pub enum ReplyKind {
    /// Usable transcript text: type or copy it.
    Transcript,
    /// The daemon reported an error: show nothing, log it.
    DaemonError,
    /// Nothing was transcribed: just put the overlay away.
    Empty,
}

/// Classifies the text a `STOP` request came back with.
pub fn classify_stop_reply(text: &str) -> (r: ReplyKind)
    ensures
        (r is DaemonError) <==> is_error_tagged(text@),
        (r is Empty) <==> (!is_error_tagged(text@) && trim_spec(text@).len() == 0),
        (r is Transcript) <==> (!is_error_tagged(text@) && trim_spec(text@).len() > 0),
{
    let n = text.unicode_len();
    if n >= 6 && str_eq(text.substring_char(0, 6), "ERROR:") {
        ReplyKind::DaemonError
    } else {
        let t = trimmed(text);
        if t.unicode_len() == 0 {
            ReplyKind::Empty
        } else {
            ReplyKind::Transcript
        }
    }
}

/// Shortens a model path for the status table: a path longer than 28
/// characters is shown as `...` and its last 25 characters.
pub fn abbreviate_model_path(path: &str) -> (r: String)
    ensures
        path@.len() > 28 ==> r@ == "..."@ + path@.subrange(path@.len() - 25, path@.len() as int),
        path@.len() <= 28 ==> r@ == path@,
{
    let n = path.unicode_len();
    if n > 28 {
        let mut s = String::from_str("...");
        s.append(path.substring_char(n - 25, n));
        s
    } else {
        String::from_str(path)
    }
}

} // verus!

//! The line-oriented command grammar of the daemon's local socket, and the
//! fixed texts of the replies the router writes itself.
//!
//! One connection carries one command: `START`, `STOP`, `CANCEL`, `STATUS`
//! or `REFRESH <payload>`, surrounded by optional whitespace. Anything else
//! is unknown and is answered with an error text. The `REFRESH` payload is
//! the serialized configuration; decoding it is the binary's job.

use vstd::prelude::*;
use crate::session::Response;
use crate::text::{trim_spec, trimmed, str_eq};

verus! {

/// One parsed request line.
pub enum Request {
    /// `START`: open a recording.
    Start,
    /// `STOP`: close it and await the transcript.
    Stop,
    /// `CANCEL`: discard the recording.
    Cancel,
    /// `STATUS`: ask for a status snapshot.
    Status,
    /// `REFRESH <payload>`: reload configuration from the payload.
    Refresh(String),
    /// Anything else.
    Unknown,
}

/// A trimmed line that carries a `REFRESH` command: the keyword, one
/// space, then the payload (which may be empty).
pub open spec fn is_refresh_line(t: Seq<char>) -> bool {
    t.len() >= 8 && t.subrange(0, 8) == "REFRESH "@
}

/// The payload of a `REFRESH` line: everything after the keyword.
pub open spec fn refresh_payload(t: Seq<char>) -> Seq<char> {
    t.subrange(8, t.len() as int)
}

/// Parses one command line, ignoring surrounding whitespace.
pub fn parse_command(line: &str) -> (r: Request)
    ensures
        (r is Start) <==> trim_spec(line@) == "START"@,
        (r is Stop) <==> trim_spec(line@) == "STOP"@,
        (r is Cancel) <==> trim_spec(line@) == "CANCEL"@,
        (r is Status) <==> trim_spec(line@) == "STATUS"@,
        (r is Refresh) <==> is_refresh_line(trim_spec(line@)),
        r matches Request::Refresh(payload) ==> payload@ == refresh_payload(trim_spec(line@)),
{
    proof {
        reveal_strlit("START");
        reveal_strlit("STOP");
        reveal_strlit("CANCEL");
        reveal_strlit("STATUS");
        reveal_strlit("REFRESH ");
        assert("START"@.len() == 5);
        assert("STOP"@.len() == 4);
        assert("CANCEL"@.len() == 6);
        assert("STATUS"@.len() == 6);
        assert("REFRESH "@.len() == 8);
        assert("CANCEL"@[0] == 'C');
        assert("STATUS"@[0] == 'S');
    }
    let t = trimmed(line);
    if str_eq(t, "START") {
        Request::Start
    } else if str_eq(t, "STOP") {
        Request::Stop
    } else if str_eq(t, "CANCEL") {
        Request::Cancel
    } else if str_eq(t, "STATUS") {
        Request::Status
    } else {
        let n = t.unicode_len();
        if n >= 8 && str_eq(t.substring_char(0, 8), "REFRESH ") {
            Request::Refresh(String::from_str(t.substring_char(8, n)))
        } else {
            Request::Unknown
        }
    }
}

/// The reply the router writes without asking the session: the
/// acknowledgements of `START` and `CANCEL` and the unknown-command error.
/// `STOP`, `STATUS` and `REFRESH` wait for the session's answer instead.
pub fn immediate_reply(req: &Request) -> (r: Option<String>)
    ensures
        req is Start ==> (r matches Some(s) && s@ == "STATUS: RECORDING"@),
        req is Cancel ==> (r matches Some(s) && s@ == "STATUS: CANCELLED"@),
        req is Unknown ==> (r matches Some(s) && s@ == "ERROR: Unknown command"@),
        req is Stop || req is Status || req is Refresh ==> r is None,
{
    match req {
        Request::Start => Some(String::from_str("STATUS: RECORDING")),
        Request::Cancel => Some(String::from_str("STATUS: CANCELLED")),
        Request::Unknown => Some(String::from_str("ERROR: Unknown command")),
        _ => None,
    }
}

/// The reply written when a command cannot be delivered to the session
/// loop; the request is treated as dropped, but the caller still hears so.
pub fn channel_error_reply() -> (r: String)
    ensures
        r@ == "ERROR: Internal channel error"@,
{
    String::from_str("ERROR: Internal channel error")
}

/// The text a resolved response slot is answered with on the wire: the
/// transcript itself, the fixed cancellation error, or the reload outcome.
/// A status snapshot has no fixed text — the binary serializes it — so it
/// yields nothing here.
pub fn render_response(resp: Response) -> (r: Option<String>)
    ensures
        resp matches Response::Text(t) ==> r == Some(t),
        resp is Cancelled ==> (r matches Some(s) && s@
            == "ERROR: Transcription cancelled or failed"@),
        resp is ReloadOk ==> (r matches Some(s) && s@ == "ok"@),
        resp matches Response::ReloadErr(e) ==> (r matches Some(s) && s@ == "ERROR: "@ + e@),
        resp is Status ==> r is None,
{
    match resp {
        Response::Text(t) => Some(t),
        Response::Cancelled => Some(String::from_str("ERROR: Transcription cancelled or failed")),
        Response::ReloadOk => Some(String::from_str("ok")),
        Response::ReloadErr(e) => {
            let mut s = String::from_str("ERROR: ");
            s.append(e.as_str());
            Some(s)
        },
        Response::Status(_) => None,
    }
}

/// The line a client sends for a request: the inverse of `parse_command`
/// for everything but `Unknown`, which has no line.
pub fn encode_request(req: &Request) -> (r: Option<String>)
    ensures
        req is Start ==> (r matches Some(s) && s@ == "START"@),
        req is Stop ==> (r matches Some(s) && s@ == "STOP"@),
        req is Cancel ==> (r matches Some(s) && s@ == "CANCEL"@),
        req is Status ==> (r matches Some(s) && s@ == "STATUS"@),
        req matches Request::Refresh(p) ==> (r matches Some(s) && s@ == "REFRESH "@ + p@),
        req is Unknown ==> r is None,
{
    match req {
        Request::Start => Some(String::from_str("START")),
        Request::Stop => Some(String::from_str("STOP")),
        Request::Cancel => Some(String::from_str("CANCEL")),
        Request::Status => Some(String::from_str("STATUS")),
        Request::Refresh(p) => {
            let mut s = String::from_str("REFRESH ");
            s.append(p.as_str());
            Some(s)
        },
        Request::Unknown => None,
    }
}

} // verus!

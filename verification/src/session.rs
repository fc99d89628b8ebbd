//! The recording-session state machine and its command/response protocol.
//!
//! Exactly one `Session` exists for the daemon's lifetime. Every command and
//! every tick is applied sequentially by the session loop, so the invariants
//! here hold without locking. Commands that expect an answer carry a
//! single-use response slot of the caller's choosing (the daemon uses a
//! one-shot channel sender); the session either keeps such a slot attached,
//! to be answered when transcription finishes, or hands it back inside a
//! [`Resolution`] — it never drops one silently.
//!
//! The transcription backend and the audio device are outside collaborators:
//! the loop feeds drained samples into [`Session::tick`], runs the backend on
//! the segment that [`Session::processing_job`] hands out, and reports the
//! outcome through [`Session::finish_processing`]. Reloading configuration
//! follows the same pattern: [`Session::handle_command`] decides whether the
//! backend must be rebuilt, the loop attempts it, and
//! [`Session::finish_reload`] commits or rejects the new snapshot.

use vstd::prelude::*;
use crate::config::SttConfig;

verus! {

/// Samples per second the capture edge is asked to deliver.
pub const SAMPLE_RATE: u32 = 16000;

/// The three phases of the single recording session.
#[derive(Clone, Copy, PartialEq, Eq, Structural, Debug)]
pub enum SessionState {
    /// No recording is open; a pending result may await a late `Stop`.
    Idle,
    /// Samples drained from the capture buffer are appended to the segment.
    Recording,
    /// The segment is complete and awaits one transcription run.
    Processing,
}

/// Read-only projection of the daemon's state, computed on demand.
pub struct StatusResponse {
    /// Whether the daemon is serving (always true when it can answer).
    pub active: bool,
    /// Process id of the daemon.
    pub pid: u32,
    /// Path of the loaded model file.
    pub model_path: String,
    /// Language the backend is asked for.
    pub language: String,
    /// Cap on the length of one recording, in seconds.
    pub max_recording_seconds: u32,
    /// Name of the current session state.
    pub state: String,
}

/// A command dispatched into the session loop. `S` is the caller's
/// single-use response slot; the daemon uses a one-shot channel sender.
pub enum Command<S> {
    /// Open a recording; while one is open, re-arm it (last start wins).
    Start,
    /// Close the recording and await its transcript.
    Stop {
        /// Slot the transcript (or pending/empty result) is delivered to.
        response_tx: S,
    },
    /// Force the session back to idle, discarding segment and results.
    Cancel,
    /// Ask for a status snapshot.
    GetStatus {
        /// Slot the snapshot is delivered to.
        response_tx: S,
    },
    /// Replace the configuration snapshot.
    ReloadConfig {
        /// The configuration to switch to.
        new_config: SttConfig,
        /// Slot the outcome is delivered to.
        response_tx: S,
    },
}

/// What a response slot is resolved with.
pub enum Response {
    /// A transcript: the backend's text, a previously pending result, the
    /// empty text when nothing was recorded, or error-tagged text.
    Text(String),
    /// The slot was torn down by `Cancel` or replaced by a later `Stop`.
    Cancelled,
    /// A status snapshot.
    Status(StatusResponse),
    /// The configuration was swapped.
    ReloadOk,
    /// The configuration was left untouched; the message names the cause.
    ReloadErr(String),
}

/// A response slot handed back to the loop together with its answer.
pub struct Resolution<S> {
    /// The slot that is now answered.
    pub slot: S,
    /// The answer to deliver through it.
    pub response: Response,
}

/// What processing one command asks of the loop.
pub enum Step<S> {
    /// Nothing to deliver now.
    Done,
    /// Deliver this answer through its slot.
    Resolved(Resolution<S>),
    /// Attempt a configuration reload: construct a new backend when
    /// `rebuild` holds, then report the outcome to `finish_reload`.
    BeginReload {
        /// The configuration to switch to.
        new_config: SttConfig,
        /// Slot awaiting the reload outcome.
        response_tx: S,
        /// Whether the model path changed, so the backend must be rebuilt.
        rebuild: bool,
    },
}

/// Name of a session state, as shown in a status snapshot.
pub open spec fn state_label(st: SessionState) -> Seq<char> {
    match st {
        SessionState::Idle => "Idle"@,
        SessionState::Recording => "Recording"@,
        SessionState::Processing => "Processing"@,
    }
}

/// Name of a session state, as shown in a status snapshot.
pub fn state_name(st: SessionState) -> (r: String)
    ensures
        r@ == state_label(st),
{
    match st {
        SessionState::Idle => String::from_str("Idle"),
        SessionState::Recording => String::from_str("Recording"),
        SessionState::Processing => String::from_str("Processing"),
    }
}

/// The segment stops growing once it holds this many samples.
pub open spec fn segment_cap(cfg: SttConfig) -> int {
    (cfg.max_recording_seconds as int) * (SAMPLE_RATE as int)
}

/// The recording session: state, accumulated segment, the
/// computed-but-undelivered result, and the attached response slot.
pub struct Session<S> {
    /// Current phase.
    pub state: SessionState,
    /// Samples recorded so far, as capture-format bit patterns.
    pub segment: Vec<u32>,
    /// A transcript computed while no slot was attached, kept for the next
    /// `Stop`; consumed by that `Stop` or cleared by `Start`/`Cancel`.
    pub pending_result: Option<String>,
    /// The slot awaiting the transcript of the open recording, if any.
    pub attached: Option<S>,
    /// Current configuration snapshot.
    pub config: SttConfig,
    /// Process id reported in status snapshots.
    pub pid: u32,
}

impl<S> Session<S> {
    /// An idle session holds neither samples nor an attached slot.
    pub open spec fn wf(&self) -> bool {
        self.state is Idle ==> self.attached is None && self.segment@.len() == 0
    }

    /// A fresh idle session.
    pub fn new(config: SttConfig, pid: u32) -> (r: Session<S>)
        ensures
            r.wf(),
            r.state is Idle,
            r.segment@ == Seq::<u32>::empty(),
            r.pending_result is None,
            r.attached is None,
            r.config == config,
            r.pid == pid,
    {
        Session {
            state: SessionState::Idle,
            segment: Vec::new(),
            pending_result: None,
            attached: None,
            config,
            pid,
        }
    }

    /// Applies one command.
    ///
    /// `Start` opens (or re-arms) a recording and clears segment and pending
    /// result; a slot already attached stays attached and is answered or torn
    /// down later. `Stop` while idle answers at once with the pending result,
    /// or with empty text; otherwise it attaches its slot for the eventual
    /// transcript, tearing down (`Cancelled`) a slot attached earlier — the
    /// last `Stop` wins. `Cancel` forces idle, discards everything and tears
    /// down the attached slot. `GetStatus` answers at once and changes
    /// nothing. `ReloadConfig` changes nothing yet: it hands the snapshot
    /// back with the rebuild decision, to be finished by `finish_reload`.
    pub fn handle_command(&mut self, cmd: Command<S>) -> (r: Step<S>)
        requires
            old(self).wf(),
        ensures
            final(self).wf(),
            final(self).config == old(self).config,
            final(self).pid == old(self).pid,
            cmd is Start ==> {
                &&& final(self).state is Recording
                &&& final(self).segment@ == Seq::<u32>::empty()
                &&& final(self).pending_result is None
                &&& final(self).attached == old(self).attached
                &&& r is Done
            },
            cmd matches Command::Stop { response_tx } ==> (if old(self).state is Idle {
                &&& final(self).state is Idle
                &&& final(self).segment@ == old(self).segment@
                &&& final(self).pending_result is None
                &&& final(self).attached is None
                &&& (r matches Step::Resolved(res) && res.slot == response_tx
                    && (old(self).pending_result matches Some(t)
                        ==> res.response == Response::Text(t))
                    && (old(self).pending_result is None
                        ==> (res.response matches Response::Text(e)
                            && e@ == Seq::<char>::empty())))
            } else {
                &&& final(self).state is Processing
                &&& final(self).segment@ == old(self).segment@
                &&& final(self).pending_result == old(self).pending_result
                &&& final(self).attached == Some(response_tx)
                &&& (old(self).attached matches Some(a) ==> r == Step::Resolved(
                    Resolution { slot: a, response: Response::Cancelled },
                ))
                &&& (old(self).attached is None ==> r is Done)
            }),
            cmd is Cancel ==> {
                &&& final(self).state is Idle
                &&& final(self).segment@ == Seq::<u32>::empty()
                &&& final(self).pending_result is None
                &&& final(self).attached is None
                &&& (old(self).attached matches Some(a) ==> r == Step::Resolved(
                    Resolution { slot: a, response: Response::Cancelled },
                ))
                &&& (old(self).attached is None ==> r is Done)
            },
            cmd matches Command::GetStatus { response_tx } ==> ({
                &&& *final(self) == *old(self)
                &&& (r matches Step::Resolved(res) && res.slot == response_tx
                    && (res.response matches Response::Status(sr)
                        && sr.active == true
                        && sr.pid == old(self).pid
                        && sr.model_path == old(self).config.model_path
                        && sr.language == old(self).config.language
                        && sr.max_recording_seconds == old(self).config.max_recording_seconds
                        && sr.state@ == state_label(old(self).state)))
            }),
            cmd matches Command::ReloadConfig { new_config, response_tx } ==> ({
                &&& *final(self) == *old(self)
                &&& (r matches Step::BeginReload { new_config: nc, response_tx: tx, rebuild }
                    && nc == new_config
                    && tx == response_tx
                    && rebuild == (new_config.model_path@ != old(self).config.model_path@))
            }),
            // The session-mutating commands refine the abstract model the
            // command-sequence laws are stated over.
            cmd is Start ==> forall|id: nat, cid: nat|
                #[trigger] model_step(abstracted(*old(self), id), CommandKind::Start, cid)
                    == (abstracted(*final(self), id), Seq::<nat>::empty()),
            cmd is Stop ==> forall|id: nat, cid: nat|
                (#[trigger] model_step(abstracted(*old(self), id), CommandKind::Stop, cid)).0
                    == abstracted(*final(self), cid),
            cmd is Cancel ==> forall|id: nat, cid: nat|
                (#[trigger] model_step(abstracted(*old(self), id), CommandKind::Cancel, cid)).0
                    == abstracted(*final(self), id),
    {
        match cmd {
            Command::Start => {
                self.state = SessionState::Recording;
                self.segment.clear();
                self.pending_result = None;
                Step::Done
            },
            Command::Stop { response_tx } => {
                match self.state {
                    SessionState::Idle => {
                        let text = match self.pending_result.take() {
                            Some(t) => t,
                            None => String::new(),
                        };
                        Step::Resolved(
                            Resolution { slot: response_tx, response: Response::Text(text) },
                        )
                    },
                    _ => {
                        self.state = SessionState::Processing;
                        let prev = self.attached.take();
                        self.attached = Some(response_tx);
                        match prev {
                            Some(a) => Step::Resolved(
                                Resolution { slot: a, response: Response::Cancelled },
                            ),
                            None => Step::Done,
                        }
                    },
                }
            },
            Command::Cancel => {
                self.state = SessionState::Idle;
                self.segment.clear();
                self.pending_result = None;
                let prev = self.attached.take();
                match prev {
                    Some(a) => Step::Resolved(
                        Resolution { slot: a, response: Response::Cancelled },
                    ),
                    None => Step::Done,
                }
            },
            Command::GetStatus { response_tx } => {
                let snapshot = StatusResponse {
                    active: true,
                    pid: self.pid,
                    model_path: self.config.model_path.clone(),
                    language: self.config.language.clone(),
                    max_recording_seconds: self.config.max_recording_seconds,
                    state: state_name(self.state),
                };
                Step::Resolved(
                    Resolution { slot: response_tx, response: Response::Status(snapshot) },
                )
            },
            Command::ReloadConfig { new_config, response_tx } => {
                let rebuild = !crate::text::str_eq(
                    new_config.model_path.as_str(),
                    self.config.model_path.as_str(),
                );
                Step::BeginReload { new_config, response_tx, rebuild }
            },
        }
    }

    /// Appends freshly drained samples while recording; once the segment has
    /// reached the configured cap, force-closes the recording instead
    /// (auto-stop) and reports that the out-of-band notification is owed.
    /// Outside `Recording` the drained samples are discarded.
    pub fn tick(&mut self, drained: &Vec<u32>) -> (auto_stop: bool)
        requires
            old(self).wf(),
        ensures
            final(self).wf(),
            final(self).config == old(self).config,
            final(self).pid == old(self).pid,
            final(self).pending_result == old(self).pending_result,
            final(self).attached == old(self).attached,
            auto_stop == (old(self).state is Recording && old(self).segment@.len()
                >= segment_cap(old(self).config)),
            (old(self).state is Recording && old(self).segment@.len() < segment_cap(
                old(self).config,
            )) ==> final(self).state is Recording && final(self).segment@ == old(self).segment@
                + drained@,
            auto_stop ==> final(self).state is Processing && final(self).segment@
                == old(self).segment@,
            !(old(self).state is Recording) ==> *final(self) == *old(self),
    {
        match self.state {
            SessionState::Recording => {
                let secs = self.config.max_recording_seconds;
                proof {
                    assert((secs as int) * (SAMPLE_RATE as int) <= (u32::MAX as int) * (
                    SAMPLE_RATE as int)) by (nonlinear_arith)
                        requires
                            secs as int <= u32::MAX as int,
                    ;
                }
                let cap = (secs as u64) * (SAMPLE_RATE as u64);
                if (self.segment.len() as u64) < cap {
                    self.segment.extend_from_slice(drained.as_slice());
                    proof {
                        assert(self.segment@ =~= old(self).segment@ + drained@);
                    }
                    false
                } else {
                    self.state = SessionState::Processing;
                    true
                }
            },
            _ => false,
        }
    }

    /// The transcription run the loop owes: while a non-empty segment awaits
    /// processing, a copy of it together with the configured language.
    /// An empty segment is not transcribed; the loop finishes it with empty
    /// text right away.
    pub fn processing_job(&self) -> (r: Option<(Vec<u32>, String)>)
        ensures
            (r is Some) == (self.state is Processing && self.segment@.len() > 0),
            r matches Some(job) ==> job.0@ == self.segment@ && job.1 == self.config.language,
    {
        match self.state {
            SessionState::Processing => {
                if self.segment.len() > 0 {
                    let samples = self.segment.clone();
                    proof {
                        assert(samples@ =~= self.segment@);
                    }
                    Some((samples, self.config.language.clone()))
                } else {
                    None
                }
            },
            _ => None,
        }
    }

    /// Delivers the outcome of one transcription run: the text goes to the
    /// attached slot when one exists, and is kept as the pending result
    /// otherwise. The session returns to idle with an empty segment either
    /// way. `text` is the transcript, empty text for an empty segment, or
    /// error-tagged text when the backend failed.
    pub fn finish_processing(&mut self, text: String) -> (r: Option<Resolution<S>>)
        requires
            old(self).wf(),
            old(self).state is Processing,
        ensures
            final(self).wf(),
            final(self).state is Idle,
            final(self).segment@ == Seq::<u32>::empty(),
            final(self).attached is None,
            final(self).config == old(self).config,
            final(self).pid == old(self).pid,
            old(self).attached matches Some(a) ==> r == Some(
                Resolution { slot: a, response: Response::Text(text) },
            ) && final(self).pending_result is None,
            old(self).attached is None ==> r is None && final(self).pending_result == Some(text),
    {
        self.state = SessionState::Idle;
        self.segment.clear();
        let prev = self.attached.take();
        match prev {
            Some(a) => {
                self.pending_result = None;
                Some(Resolution { slot: a, response: Response::Text(text) })
            },
            None => {
                self.pending_result = Some(text);
                None
            },
        }
    }

    /// Finishes a reload begun by `handle_command`: when no rebuild was
    /// needed, or the new backend was constructed, the snapshot is swapped
    /// and the slot answered `ReloadOk`; when the rebuild failed, config and
    /// backend stay untouched and the slot is answered with the error.
    pub fn finish_reload(
        &mut self,
        new_config: SttConfig,
        response_tx: S,
        rebuild_outcome: Option<Result<(), String>>,
    ) -> (r: Resolution<S>)
        requires
            old(self).wf(),
        ensures
            final(self).wf(),
            final(self).state == old(self).state,
            final(self).segment@ == old(self).segment@,
            final(self).pending_result == old(self).pending_result,
            final(self).attached == old(self).attached,
            final(self).pid == old(self).pid,
            r.slot == response_tx,
            (rebuild_outcome is None || rebuild_outcome matches Some(Ok(_)))
                ==> final(self).config == new_config && r.response is ReloadOk,
            rebuild_outcome matches Some(Err(e)) ==> final(self).config == old(self).config
                && r.response == Response::ReloadErr(e),
    {
        match rebuild_outcome {
            Some(Err(e)) => Resolution { slot: response_tx, response: Response::ReloadErr(e) },
            _ => {
                self.config = new_config;
                Resolution { slot: response_tx, response: Response::ReloadOk }
            },
        }
    }
}

/// The session-mutating commands, abstracted for reasoning about whole
/// command sequences.
pub enum CommandKind {
    /// `Command::Start`.
    Start,
    /// `Command::Stop`; the slot it carries is identified by the command's
    /// position in the sequence.
    Stop,
    /// `Command::Cancel`.
    Cancel,
}

/// The session as command sequences see it. A slot is identified by the
/// position of the `Stop` that brought it; `abstracted` maps a `Session`
/// here, and `handle_command` ensures that processing `Start`, `Stop` or
/// `Cancel` takes the abstraction through `model_step`.
pub struct SessionModel {
    /// Current phase.
    pub state: SessionState,
    /// Number of samples recorded so far.
    pub segment_len: nat,
    /// Whether a computed-but-undelivered transcript is kept.
    pub has_pending: bool,
    /// Position of the `Stop` whose slot is attached, if one is.
    pub attached: Option<nat>,
}

/// A session as `SessionModel` sees it, with `id` naming the attached
/// slot, if one is attached.
pub open spec fn abstracted<S>(s: Session<S>, id: nat) -> SessionModel {
    SessionModel {
        state: s.state,
        segment_len: s.segment@.len(),
        has_pending: s.pending_result is Some,
        attached: if s.attached is Some {
            Some(id)
        } else {
            None
        },
    }
}

/// The model of a fresh session.
pub open spec fn initial_model() -> SessionModel {
    SessionModel { state: SessionState::Idle, segment_len: 0, has_pending: false, attached: None }
}

/// An idle session holds neither samples nor an attached slot.
pub open spec fn model_wf(m: SessionModel) -> bool {
    m.state is Idle ==> m.attached is None && m.segment_len == 0
}

/// The slots a step tears down or answers: the attached one, if any.
pub open spec fn torn_down(a: Option<nat>) -> Seq<nat> {
    match a {
        Some(x) => seq![x],
        None => Seq::empty(),
    }
}

/// One step of the session under command `c` arriving at position `id`:
/// the session afterwards, and the slots resolved by the step.
pub open spec fn model_step(m: SessionModel, c: CommandKind, id: nat) -> (SessionModel, Seq<
    nat,
>) {
    match c {
        CommandKind::Start => (
            SessionModel {
                state: SessionState::Recording,
                segment_len: 0,
                has_pending: false,
                attached: m.attached,
            },
            Seq::empty(),
        ),
        CommandKind::Stop => if m.state is Idle {
            (
                SessionModel {
                    state: SessionState::Idle,
                    segment_len: m.segment_len,
                    has_pending: false,
                    attached: None,
                },
                seq![id],
            )
        } else {
            (
                SessionModel {
                    state: SessionState::Processing,
                    segment_len: m.segment_len,
                    has_pending: m.has_pending,
                    attached: Some(id),
                },
                torn_down(m.attached),
            )
        },
        CommandKind::Cancel => (
            SessionModel {
                state: SessionState::Idle,
                segment_len: 0,
                has_pending: false,
                attached: None,
            },
            torn_down(m.attached),
        ),
    }
}

/// A fresh session run through a whole command sequence: the session
/// afterwards, and every slot resolved along the way.
pub open spec fn model_run(cmds: Seq<CommandKind>) -> (SessionModel, Seq<nat>)
    decreases cmds.len(),
{
    if cmds.len() == 0 {
        (initial_model(), Seq::<nat>::empty())
    } else {
        let prior = model_run(cmds.drop_last());
        let stepped = model_step(prior.0, cmds.last(), (cmds.len() - 1) as nat);
        (stepped.0, prior.1 + stepped.1)
    }
}

/// Every response slot is accounted for: each resolved slot came from a
/// `Stop` and was resolved only once, the attached slot came from a `Stop`
/// and is not yet resolved, and the slot of every `Stop` ever processed is
/// either resolved or still attached — none dangles.
pub open spec fn slots_accounted(
    cmds: Seq<CommandKind>,
    m: SessionModel,
    resolved: Seq<nat>,
) -> bool {
    &&& resolved.no_duplicates()
    &&& (forall|k: int|
        0 <= k < resolved.len() ==> resolved[k] < cmds.len() && cmds[resolved[k] as int] is Stop)
    &&& (m.attached matches Some(a) ==> a < cmds.len() && cmds[a as int] is Stop
        && !resolved.contains(a))
    &&& (forall|i: int|
        0 <= i < cmds.len() && cmds[i] is Stop ==> resolved.contains(i as nat) || m.attached
            == Some(i as nat))
}

proof fn lemma_concat_keeps_no_duplicates(s: Seq<nat>, x: nat)
    requires
        s.no_duplicates(),
        !s.contains(x),
    ensures
        (s + seq![x]).no_duplicates(),
{
    let t = s + seq![x];
    assert forall|i: int, j: int| 0 <= i < j < t.len() implies t[i] != t[j] by {
        if j < s.len() {
            assert(t[i] == s[i] && t[j] == s[j]);
        } else {
            assert(t[j] == x);
            assert(t[i] == s[i]);
            if s[i] == x {
                assert(s.contains(x));
            }
        }
    }
}

/// After any sequence of `Start`, `Stop` and `Cancel`, the session is in
/// one of its three states with the idle invariant intact, and no response
/// slot dangles: every `Stop`'s slot was answered exactly once or is still
/// attached awaiting the transcript.
pub proof fn lemma_commands_never_dangle(cmds: Seq<CommandKind>)
    ensures
        model_wf(model_run(cmds).0),
        slots_accounted(cmds, model_run(cmds).0, model_run(cmds).1),
    decreases cmds.len(),
{
    if cmds.len() == 0 {
    } else {
        let prefix = cmds.drop_last();
        lemma_commands_never_dangle(prefix);
        let m0 = model_run(prefix).0;
        let r0 = model_run(prefix).1;
        let c = cmds.last();
        let id = (cmds.len() - 1) as nat;
        let m1 = model_step(m0, c, id).0;
        let rs = model_step(m0, c, id).1;
        let r1 = r0 + rs;
        assert(model_run(cmds).0 == m1);
        assert(model_run(cmds).1 == r1);
        assert(forall|i: int| 0 <= i < prefix.len() ==> prefix[i] == cmds[i]);
        assert(c == cmds[cmds.len() - 1]);

        // The step resolves at most one slot, and that slot is fresh in r0
        // and bounded by the sequence: either the newly arrived Stop (id),
        // or the previously attached slot, which r0 does not contain.
        assert(r0.len() <= r1.len());
        assert(forall|k: int| 0 <= k < r0.len() ==> r1[k] == r0[k]);
        if rs.len() > 0 {
            let x = rs[0];
            assert(rs =~= seq![x]);
            // The resolved slot came from a Stop and is fresh in r0.
            match c {
                CommandKind::Start => {
                    assert(false);
                },
                CommandKind::Stop => {
                    if m0.state is Idle {
                        assert(x == id);
                        if r0.contains(x) {
                            let k = choose|k: int| 0 <= k < r0.len() && r0[k] == x;
                            assert(r0[k] < prefix.len());
                            assert(false);
                        }
                    } else {
                        assert(m0.attached == Some(x));
                    }
                },
                CommandKind::Cancel => {
                    assert(m0.attached == Some(x));
                },
            }
            assert(x < cmds.len() && cmds[x as int] is Stop);
            assert(!r0.contains(x));
            lemma_concat_keeps_no_duplicates(r0, x);
        } else {
            assert(r1 =~= r0);
        }

        // The attached slot of the stepped session is fresh and from a Stop.
        match m1.attached {
            Some(a) => {
                match c {
                    CommandKind::Start => {
                        assert(m0.attached == Some(a));
                        if r1.contains(a) {
                            let k = choose|k: int| 0 <= k < r1.len() && r1[k] == a;
                            assert(r1.len() == r0.len());
                            assert(r0[k] == a);
                            assert(r0.contains(a));
                            assert(false);
                        }
                    },
                    CommandKind::Stop => {
                        assert(!(m0.state is Idle));
                        assert(a == id);
                        if r1.contains(a) {
                            let k = choose|k: int| 0 <= k < r1.len() && r1[k] == a;
                            if k < r0.len() {
                                assert(r0[k] < prefix.len());
                                assert(false);
                            } else {
                                assert(r1[k] == rs[k - r0.len()]);
                                match m0.attached {
                                    Some(p) => {
                                        assert(p < prefix.len());
                                        assert(false);
                                    },
                                    None => {
                                        assert(rs.len() == 0);
                                        assert(false);
                                    },
                                }
                            }
                        }
                    },
                    CommandKind::Cancel => {
                        assert(false);
                    },
                }
                assert(a < cmds.len() && cmds[a as int] is Stop && !r1.contains(a));
            },
            None => {},
        }

        // Every Stop's slot is still accounted for after the step.
        assert forall|i: int|
            0 <= i < cmds.len() && cmds[i] is Stop implies r1.contains(i as nat) || m1.attached
            == Some(i as nat) by {
            if i < cmds.len() - 1 {
                assert(prefix[i] is Stop);
                if r0.contains(i as nat) {
                    let k = choose|k: int| 0 <= k < r0.len() && r0[k] == i as nat;
                    assert(r1[k] == i as nat);
                    assert(r1.contains(i as nat));
                } else {
                    assert(m0.attached == Some(i as nat));
                    match c {
                        CommandKind::Start => {
                            assert(m1.attached == Some(i as nat));
                        },
                        CommandKind::Stop => {
                            assert(!(m0.state is Idle));
                            assert(rs == seq![i as nat]);
                            assert(r1[r0.len() as int] == i as nat);
                            assert(r1.contains(i as nat));
                        },
                        CommandKind::Cancel => {
                            assert(rs == seq![i as nat]);
                            assert(r1[r0.len() as int] == i as nat);
                            assert(r1.contains(i as nat));
                        },
                    }
                }
            } else {
                assert(i == cmds.len() - 1);
                assert(c is Stop);
                if m0.state is Idle {
                    assert(rs == seq![id]);
                    assert(r1[r0.len() as int] == id);
                    assert(r1.contains(i as nat));
                } else {
                    assert(m1.attached == Some(i as nat));
                }
            }
        }
    }
}

/// Starting twice without an intervening stop is the same as starting
/// once: the second `Start` changes nothing and answers no slot.
pub proof fn lemma_start_idempotent(m: SessionModel, id1: nat, id2: nat)
    ensures
        model_step(model_step(m, CommandKind::Start, id1).0, CommandKind::Start, id2).0
            == model_step(m, CommandKind::Start, id1).0,
        model_step(model_step(m, CommandKind::Start, id1).0, CommandKind::Start, id2).1
            == Seq::<nat>::empty(),
{
}

} // verus!

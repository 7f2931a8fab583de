use vstd::prelude::*;

use crate::shutdown_signal::{effective_signal, spec_effective_signal, BusRecv, ShutdownSignal};

verus! {

/// The phases of one client session.
#[derive(Clone, Copy, Debug, PartialEq, Eq, Structural)]
pub enum SessionPhase {
    Idle,
    Discovering,
    Handshaking,
    PipelineActive,
    Draining,
}

/// A running part of the pipeline that must be told to stop when the session ends.
#[derive(Clone, Copy, Debug, PartialEq, Eq, Structural)]
pub enum Component {
    ConnectionManager,
    Compositor,
    /// The encoder of one video slice, by slice index.
    VideoEncoder(u64),
    GameAudioRecorder,
    MicrophonePlayer,
}

/// Why a handshake was turned down.
#[derive(Clone, Copy, Debug, PartialEq, Eq, Structural)]
pub enum HandshakeError {
    /// No client is being looked for at the moment.
    NotDiscovering,
    /// The client speaks an older protocol than the server accepts.
    VersionTooOld { offered: u32, required: u32 },
}

/// What the heartbeat loop does after one wait on the shutdown bus.
#[derive(Clone, Copy, Debug, PartialEq, Eq, Structural)]
pub enum HeartbeatAction {
    /// Log the statistics and wait again.
    KeepWaiting,
    /// Leave the active phase and tear the pipeline down; tell the client first when
    /// `notify_client` holds.
    Drain { signal: ShutdownSignal, notify_client: bool },
    /// The session is not streaming: there is nothing to wait for.
    NotActive,
}

/// The session as a mathematical value.
pub struct SessionModel {
    pub phase: SessionPhase,
    /// The components started for this session, in start order.
    pub stop_list: Seq<Component>,
    /// Stop has been requested of every component on the stop list.
    pub stops_requested: bool,
    /// The signal that ended the active phase, if any.
    pub signal: Option<ShutdownSignal>,
}

/// The session state machine: from discovery through handshake and streaming to a two-phase
/// teardown (first ask every component to stop, then release them all).
pub struct Session {
    phase: SessionPhase,
    stop_list: Vec<Component>,
    stops_requested: bool,
    signal: Option<ShutdownSignal>,
}

/// A session that waits for nothing and owns nothing.
pub open spec fn idle_model() -> SessionModel {
    SessionModel { phase: SessionPhase::Idle, stop_list: Seq::empty(), stops_requested: false, signal: None }
}

/// Start looking for a client.
pub open spec fn discovery_step(m: SessionModel) -> SessionModel {
    if m.phase == SessionPhase::Idle {
        SessionModel { phase: SessionPhase::Discovering, ..m }
    } else {
        m
    }
}

/// The answer to a client that offers protocol version `offered` when `required` is the oldest
/// one accepted.
pub open spec fn handshake_result(m: SessionModel, offered: u32, required: u32) -> Result<(), HandshakeError> {
    if m.phase != SessionPhase::Discovering {
        Err(HandshakeError::NotDiscovering)
    } else if offered < required {
        Err(HandshakeError::VersionTooOld { offered, required })
    } else {
        Ok(())
    }
}

/// The session after that handshake: only an accepted one moves on to `Handshaking`.
pub open spec fn handshake_step(m: SessionModel, offered: u32, required: u32) -> SessionModel {
    if handshake_result(m, offered, required) is Ok {
        SessionModel { phase: SessionPhase::Handshaking, ..m }
    } else {
        m
    }
}

/// Record a started component; components start only while the pipeline is being built.
pub open spec fn track_step(m: SessionModel, c: Component) -> SessionModel {
    if m.phase == SessionPhase::Handshaking {
        SessionModel { stop_list: m.stop_list.push(c), ..m }
    } else {
        m
    }
}

/// The pipeline is complete: start streaming.
pub open spec fn activate_step(m: SessionModel) -> SessionModel {
    if m.phase == SessionPhase::Handshaking {
        SessionModel { phase: SessionPhase::PipelineActive, ..m }
    } else {
        m
    }
}

/// Building the pipeline failed: tear down what was started.
pub open spec fn abort_step(m: SessionModel) -> SessionModel {
    if m.phase == SessionPhase::Handshaking {
        SessionModel { phase: SessionPhase::Draining, ..m }
    } else {
        m
    }
}

/// What the heartbeat does with one result of waiting on the shutdown bus.
pub open spec fn heartbeat_action(m: SessionModel, r: BusRecv) -> HeartbeatAction {
    if m.phase != SessionPhase::PipelineActive {
        HeartbeatAction::NotActive
    } else {
        match spec_effective_signal(r) {
            None => HeartbeatAction::KeepWaiting,
            Some(s) => HeartbeatAction::Drain {
                signal: s,
                notify_client: s == ShutdownSignal::BackendShutdown,
            },
        }
    }
}

/// The session after that heartbeat.
pub open spec fn heartbeat_step(m: SessionModel, r: BusRecv) -> SessionModel {
    match heartbeat_action(m, r) {
        HeartbeatAction::Drain { signal, .. } => SessionModel {
            phase: SessionPhase::Draining,
            signal: Some(signal),
            ..m
        },
        _ => m,
    }
}

/// The components that must be asked to stop now: all of them, at once, while draining.
pub open spec fn stop_requests(m: SessionModel) -> Seq<Component> {
    if m.phase == SessionPhase::Draining {
        m.stop_list
    } else {
        Seq::empty()
    }
}

pub open spec fn request_stops_step(m: SessionModel) -> SessionModel {
    if m.phase == SessionPhase::Draining {
        SessionModel { stops_requested: true, ..m }
    } else {
        m
    }
}

/// The components that may be released (joined) now: all of them, once every one of them has
/// been asked to stop.
pub open spec fn releases(m: SessionModel) -> Seq<Component> {
    if m.phase == SessionPhase::Draining && m.stops_requested {
        m.stop_list
    } else {
        Seq::empty()
    }
}

pub open spec fn release_step(m: SessionModel) -> SessionModel {
    if m.phase == SessionPhase::Draining && m.stops_requested {
        SessionModel { signal: m.signal, ..idle_model() }
    } else {
        m
    }
}

impl View for Session {
    type V = SessionModel;

    closed spec fn view(&self) -> SessionModel {
        SessionModel {
            phase: self.phase,
            stop_list: self.stop_list@,
            stops_requested: self.stops_requested,
            signal: self.signal,
        }
    }
}

impl Session {
    pub fn new() -> (s: Self)
        ensures
            s@ == idle_model(),
    {
        Session { phase: SessionPhase::Idle, stop_list: Vec::new(), stops_requested: false, signal: None }
    }

    pub fn phase(&self) -> (p: SessionPhase)
        ensures
            p == self@.phase,
    {
        self.phase
    }

    /// The signal that ended the last active phase, if any.
    pub fn signal(&self) -> (s: Option<ShutdownSignal>)
        ensures
            s == self@.signal,
    {
        self.signal
    }

    /// The components started for this session, in start order.
    pub fn stop_list(&self) -> (v: Vec<Component>)
        ensures
            v@ == self@.stop_list,
    {
        self.stop_list.clone()
    }

    /// Starts looking for a client; returns whether the session was idle.
    pub fn begin_discovery(&mut self) -> (started: bool)
        ensures
            started == (old(self)@.phase == SessionPhase::Idle),
            final(self)@ == discovery_step(old(self)@),
    {
        if self.phase == SessionPhase::Idle {
            self.phase = SessionPhase::Discovering;
            true
        } else {
            false
        }
    }

    /// Checks a client's protocol version against the oldest one accepted. A client that is too
    /// old is turned away and discovery goes on; an accepted one moves the session to
    /// `Handshaking`.
    pub fn on_handshake(&mut self, offered: u32, required: u32) -> (r: Result<(), HandshakeError>)
        ensures
            r == handshake_result(old(self)@, offered, required),
            final(self)@ == handshake_step(old(self)@, offered, required),
    {
        if self.phase != SessionPhase::Discovering {
            return Err(HandshakeError::NotDiscovering);
        }
        if offered < required {
            return Err(HandshakeError::VersionTooOld { offered, required });
        }
        self.phase = SessionPhase::Handshaking;
        Ok(())
    }

    /// Records a component started for the pipeline, so that teardown stops it; returns whether
    /// the pipeline was being built.
    pub fn track(&mut self, c: Component) -> (recorded: bool)
        ensures
            recorded == (old(self)@.phase == SessionPhase::Handshaking),
            final(self)@ == track_step(old(self)@, c),
    {
        if self.phase == SessionPhase::Handshaking {
            self.stop_list.push(c);
            true
        } else {
            false
        }
    }

    /// The pipeline is built: start streaming. Returns whether it was being built.
    pub fn activate(&mut self) -> (activated: bool)
        ensures
            activated == (old(self)@.phase == SessionPhase::Handshaking),
            final(self)@ == activate_step(old(self)@),
    {
        if self.phase == SessionPhase::Handshaking {
            self.phase = SessionPhase::PipelineActive;
            true
        } else {
            false
        }
    }

    /// Building the pipeline failed: drain what was started. Returns whether it was being built.
    pub fn abort(&mut self) -> (aborted: bool)
        ensures
            aborted == (old(self)@.phase == SessionPhase::Handshaking),
            final(self)@ == abort_step(old(self)@),
    {
        if self.phase == SessionPhase::Handshaking {
            self.phase = SessionPhase::Draining;
            true
        } else {
            false
        }
    }

    /// Handles one result of waiting on the shutdown bus while streaming: a signal, or a bus with
    /// no sender left (which counts as the backend shutting down), ends the active phase.
    pub fn on_heartbeat(&mut self, r: BusRecv) -> (a: HeartbeatAction)
        ensures
            a == heartbeat_action(old(self)@, r),
            final(self)@ == heartbeat_step(old(self)@, r),
    {
        if self.phase != SessionPhase::PipelineActive {
            return HeartbeatAction::NotActive;
        }
        match effective_signal(r) {
            None => HeartbeatAction::KeepWaiting,
            Some(s) => {
                self.phase = SessionPhase::Draining;
                self.signal = Some(s);
                let notify_client = match s {
                    ShutdownSignal::BackendShutdown => true,
                    ShutdownSignal::ClientDisconnected => false,
                };
                HeartbeatAction::Drain { signal: s, notify_client }
            },
        }
    }

    /// First phase of teardown: every component to be asked to stop, all at once, before any is
    /// released.
    pub fn request_stops(&mut self) -> (v: Vec<Component>)
        ensures
            v@ == stop_requests(old(self)@),
            final(self)@ == request_stops_step(old(self)@),
    {
        if self.phase == SessionPhase::Draining {
            self.stops_requested = true;
            self.stop_list.clone()
        } else {
            Vec::new()
        }
    }

    /// Second phase of teardown: once every component has been asked to stop, hands them all out
    /// to be released and returns the session to `Idle`. Before that, hands out nothing.
    pub fn release(&mut self) -> (v: Vec<Component>)
        ensures
            v@ == releases(old(self)@),
            final(self)@ == release_step(old(self)@),
    {
        if self.phase == SessionPhase::Draining && self.stops_requested {
            let mut v = Vec::new();
            std::mem::swap(&mut v, &mut self.stop_list);
            self.phase = SessionPhase::Idle;
            self.stops_requested = false;
            v
        } else {
            Vec::new()
        }
    }
}

/// A client that offers a protocol version older than the one required never reaches
/// `PipelineActive`: the handshake is refused, discovery goes on, no component can be started
/// for it, and the pipeline cannot be activated.
pub proof fn lemma_version_gate(m: SessionModel, offered: u32, required: u32, c: Component)
    requires
        m.phase == SessionPhase::Discovering,
        offered < required,
    ensures
        handshake_result(m, offered, required) == Err::<(), HandshakeError>(
            HandshakeError::VersionTooOld { offered, required },
        ),
        handshake_step(m, offered, required).phase == SessionPhase::Discovering,
        handshake_step(m, offered, required).stop_list == m.stop_list,
        track_step(handshake_step(m, offered, required), c).stop_list == m.stop_list,
        activate_step(handshake_step(m, offered, required)).phase != SessionPhase::PipelineActive,
{
}

/// Teardown is two-phase: nothing is released before every started component has been asked to
/// stop, and what is released is exactly what was asked to stop.
pub proof fn lemma_stop_before_release(m: SessionModel)
    requires
        m.phase == SessionPhase::Draining,
    ensures
        !m.stops_requested ==> releases(m) == Seq::<Component>::empty(),
        releases(request_stops_step(m)) == stop_requests(m),
        stop_requests(m) == m.stop_list,
        release_step(request_stops_step(m)).phase == SessionPhase::Idle,
        release_step(request_stops_step(m)).stop_list == Seq::<Component>::empty(),
{
}

/// How a connection attempt ended.
#[derive(Clone, Copy, Debug, PartialEq, Eq, Structural)]
pub enum AttemptOutcome {
    /// The session ran and was ended by this signal.
    Ended(ShutdownSignal),
    /// No session came about (no client, an old client, a setup error).
    Failed,
}

/// The outer discovery loop's state: connection attempts go on until `deadline`, which each
/// client disconnection pushes back by `timeout`; a backend shutdown ends the loop for good.
pub struct ReconnectLoop {
    pub deadline: u64,
    pub timeout: u64,
    pub finished: bool,
}

/// `a + b`, or `u64::MAX` when that does not fit.
pub open spec fn saturating_sum(a: u64, b: u64) -> u64 {
    if a + b > u64::MAX {
        u64::MAX
    } else {
        (a + b) as u64
    }
}

/// Another connection attempt is made at time `now`.
pub open spec fn spec_should_attempt(l: ReconnectLoop, now: u64) -> bool {
    !l.finished && now < l.deadline
}

/// The loop after an attempt that ended with `outcome` at time `now`; `pending` is what a
/// non-blocking receive on the shutdown bus found after a failed attempt.
pub open spec fn after_attempt_step(l: ReconnectLoop, outcome: AttemptOutcome, pending: BusRecv, now: u64) -> ReconnectLoop {
    match outcome {
        AttemptOutcome::Ended(ShutdownSignal::ClientDisconnected) => ReconnectLoop {
            deadline: saturating_sum(now, l.timeout),
            ..l
        },
        AttemptOutcome::Ended(ShutdownSignal::BackendShutdown) => ReconnectLoop { finished: true, ..l },
        AttemptOutcome::Failed => {
            if pending == BusRecv::Signal(ShutdownSignal::BackendShutdown) || pending
                == BusRecv::Disconnected {
                ReconnectLoop { finished: true, ..l }
            } else {
                l
            }
        },
    }
}

fn add_saturating(a: u64, b: u64) -> (r: u64)
    ensures
        r == saturating_sum(a, b),
{
    if a > u64::MAX - b {
        u64::MAX
    } else {
        a + b
    }
}

impl ReconnectLoop {
    /// A loop started at `now` that gives up `timeout` nanoseconds later unless a client shows up.
    pub fn new(now: u64, timeout: u64) -> (l: Self)
        ensures
            l == (ReconnectLoop { deadline: saturating_sum(now, timeout), timeout, finished: false }),
    {
        ReconnectLoop { deadline: add_saturating(now, timeout), timeout, finished: false }
    }

    pub fn should_attempt(&self, now: u64) -> (b: bool)
        ensures
            b == spec_should_attempt(*self, now),
    {
        !self.finished && now < self.deadline
    }

    /// Records how an attempt ended: a client disconnection restarts the deadline from `now`, a
    /// backend shutdown (reported, or found on the bus after a failure, or the bus losing all
    /// its senders) ends the loop.
    pub fn after_attempt(&mut self, outcome: AttemptOutcome, pending: BusRecv, now: u64)
        ensures
            *final(self) == after_attempt_step(*old(self), outcome, pending, now),
    {
        match outcome {
            AttemptOutcome::Ended(ShutdownSignal::ClientDisconnected) => {
                self.deadline = add_saturating(now, self.timeout);
            },
            AttemptOutcome::Ended(ShutdownSignal::BackendShutdown) => {
                self.finished = true;
            },
            AttemptOutcome::Failed => {
                match pending {
                    BusRecv::Signal(ShutdownSignal::BackendShutdown) | BusRecv::Disconnected => {
                        self.finished = true;
                    },
                    _ => {},
                }
            },
        }
    }
}

/// After a client disconnects at time `t`, attempts go on exactly while the time is before
/// `t + timeout`; failed attempts that find no shutdown on the bus leave that deadline alone, so
/// once it has passed no attempt is made again.
pub proof fn lemma_reconnect_deadline(l: ReconnectLoop, pending: BusRecv, t: u64, now: u64, quiet: BusRecv)
    requires
        !l.finished,
        quiet == BusRecv::Empty || quiet == BusRecv::Signal(ShutdownSignal::ClientDisconnected),
    ensures
        ({
            let l2 = after_attempt_step(l, AttemptOutcome::Ended(ShutdownSignal::ClientDisconnected), pending, t);
            &&& l2.deadline == saturating_sum(t, l.timeout)
            &&& t + l.timeout <= u64::MAX ==> l2.deadline == t + l.timeout
            &&& !l2.finished
            &&& spec_should_attempt(l2, now) <==> now < saturating_sum(t, l.timeout)
            &&& after_attempt_step(l2, AttemptOutcome::Failed, quiet, now) == l2
        }),
{
}

/// With its deadline passed, the loop makes no attempt, whatever failed attempts came before.
pub proof fn lemma_no_retry_after_deadline(l: ReconnectLoop, quiet: BusRecv, now: u64, x: u64)
    requires
        now >= l.deadline,
    ensures
        !spec_should_attempt(l, now),
        !spec_should_attempt(after_attempt_step(l, AttemptOutcome::Failed, quiet, x), now),
{
}

/// One second, in nanoseconds: the reconnect timeout when the settings cannot be read.
pub const DEFAULT_RECONNECT_TIMEOUT_NS: u64 = 1_000_000_000;

/// The reconnect timeout in nanoseconds: the configured number of seconds (saturating), or one
/// second when no setting could be read.
pub fn reconnect_timeout_ns(configured_seconds: Option<u64>) -> (ns: u64)
    ensures
        ns == match configured_seconds {
            Some(s) => if s * 1_000_000_000 > u64::MAX {
                u64::MAX
            } else {
                (s * 1_000_000_000) as u64
            },
            None => DEFAULT_RECONNECT_TIMEOUT_NS,
        },
{
    match configured_seconds {
        Some(s) => {
            if s > u64::MAX / 1_000_000_000 {
                u64::MAX
            } else {
                s * 1_000_000_000
            }
        },
        None => DEFAULT_RECONNECT_TIMEOUT_NS,
    }
}

} // verus!

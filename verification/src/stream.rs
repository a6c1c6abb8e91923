//! The background session that keeps the account snapshot fresh: its phase
//! order, how each received frame is handled, and the reconnect backoff.
//!
//! The session runs `RequestSessionToken -> Connect -> Streaming` and falls
//! back to a reconnect with exponential backoff on any failure; a normal
//! stream end resets the backoff and retries after a short fixed pause.
//! The transport and the timers live outside; every decision is here.

use vstd::prelude::*;

use crate::account::AccountInfo;

verus! {

/// First wait after a failure, in seconds.
pub const BACKOFF_BASE_SECS: u64 = 5;

/// Ceiling of the doubling backoff, in seconds.
pub const BACKOFF_CAP_SECS: u64 = 60;

/// Pause before reconnecting after a normal (non-error) stream end, in
/// seconds.
pub const CLEAN_CLOSE_PAUSE_SECS: u64 = 1;

/// How often the session token is renewed while streaming, in seconds.
pub const KEEPALIVE_INTERVAL_SECS: u64 = 1800;

/// The wait that follows `wait` in the doubling-capped backoff schedule.
pub open spec fn spec_next_backoff(wait: int) -> int {
    if 2 * wait <= BACKOFF_CAP_SECS {
        2 * wait
    } else {
        BACKOFF_CAP_SECS as int
    }
}

/// Reconnect backoff state: the wait the next failure will incur.
#[derive(Clone, Copy, Debug)]
pub struct ReconnectBackoff {
    pub next_wait_secs: u64,
}

impl ReconnectBackoff {
    /// The wait stays within the schedule's range.
    pub open spec fn wf(self) -> bool {
        BACKOFF_BASE_SECS <= self.next_wait_secs <= BACKOFF_CAP_SECS
    }

    /// Fresh backoff: the first failure waits the base interval.
    pub fn new() -> (r: ReconnectBackoff)
        ensures
            r.next_wait_secs == BACKOFF_BASE_SECS,
            r.wf(),
    {
        ReconnectBackoff { next_wait_secs: BACKOFF_BASE_SECS }
    }

    /// A failed session: wait the current interval, then double it, capped.
    pub fn on_failure(&mut self) -> (wait_secs: u64)
        requires
            old(self).wf(),
        ensures
            wait_secs == old(self).next_wait_secs,
            final(self).next_wait_secs == spec_next_backoff(old(self).next_wait_secs as int),
            final(self).wf(),
    {
        let wait = self.next_wait_secs;
        self.next_wait_secs = if self.next_wait_secs <= BACKOFF_CAP_SECS / 2 {
            2 * self.next_wait_secs
        } else {
            BACKOFF_CAP_SECS
        };
        wait
    }

    /// A normal stream end: reset to the base interval and retry after the
    /// short fixed pause.
    pub fn on_clean_close(&mut self) -> (pause_secs: u64)
        ensures
            pause_secs == CLEAN_CLOSE_PAUSE_SECS,
            final(self).next_wait_secs == BACKOFF_BASE_SECS,
            final(self).wf(),
    {
        self.next_wait_secs = BACKOFF_BASE_SECS;
        CLEAN_CLOSE_PAUSE_SECS
    }
}

/// Three consecutive failures from a fresh backoff wait 5, 10 and 20
/// seconds; after a success (a clean stream end resets the schedule) the
/// next failure waits the base 5 seconds again.
pub proof fn lemma_backoff_sequence()
    ensures
        BACKOFF_BASE_SECS == 5,
        spec_next_backoff(BACKOFF_BASE_SECS as int) == 10,
        spec_next_backoff(spec_next_backoff(BACKOFF_BASE_SECS as int)) == 20,
        forall|w: int| spec_next_backoff(w) <= BACKOFF_CAP_SECS,
{
}

/// One frame of the push stream, as handed in by the transport.
#[derive(Clone, Debug)]
pub enum StreamFrame {
    /// A balance-update event carrying a full new snapshot.
    BalanceUpdate { snapshot: AccountInfo },
    /// The exchange declared the session token expired.
    SessionExpired,
    /// A transport-level ping that must be answered to keep the connection
    /// alive.
    Ping { payload: Vec<u8> },
    /// A transport-level pong; nothing to do.
    Pong,
    /// A binary or other frame this session does not consume.
    Irrelevant,
    /// The peer closed the stream.
    Closed,
    /// The transport reported an error.
    TransportError,
    /// The stream ended without a close frame.
    Ended,
}

/// What the session does with a frame.
#[derive(Clone, Debug)]
pub enum StreamStep {
    /// Replace the cached snapshot in full with this one.
    ReplaceSnapshot { snapshot: AccountInfo },
    /// Answer the ping with a pong carrying the same payload.
    SendPong { payload: Vec<u8> },
    /// Nothing to do; keep streaming.
    KeepStreaming,
    /// Leave the `Streaming` phase and reconnect.
    Reconnect,
}

/// Frame handling while `Streaming`: a balance update replaces the
/// snapshot, a ping is answered with a pong (liveness, not business), an
/// expired session or any close, error or early end reconnects, and
/// everything else is ignored.
pub fn streaming_step(frame: StreamFrame) -> (r: StreamStep)
    ensures
        frame matches StreamFrame::BalanceUpdate { snapshot } ==> (r
            matches StreamStep::ReplaceSnapshot { snapshot: s } && s == snapshot),
        frame matches StreamFrame::Ping { payload } ==> (r matches StreamStep::SendPong {
            payload: p,
        } && p@ == payload@),
        frame is Pong || frame is Irrelevant ==> r is KeepStreaming,
        frame is SessionExpired || frame is Closed || frame is TransportError || frame is Ended
            ==> r is Reconnect,
{
    match frame {
        StreamFrame::BalanceUpdate { snapshot } => StreamStep::ReplaceSnapshot { snapshot },
        StreamFrame::Ping { payload } => StreamStep::SendPong { payload },
        StreamFrame::Pong => StreamStep::KeepStreaming,
        StreamFrame::Irrelevant => StreamStep::KeepStreaming,
        StreamFrame::SessionExpired => StreamStep::Reconnect,
        StreamFrame::Closed => StreamStep::Reconnect,
        StreamFrame::TransportError => StreamStep::Reconnect,
        StreamFrame::Ended => StreamStep::Reconnect,
    }
}

/// Phases of one session attempt, in order.
#[derive(Clone, Copy, Debug, PartialEq, Eq, Structural)]
pub enum SessionPhase {
    /// Requesting a session token for the private stream.
    RequestSessionToken,
    /// Connecting the stream addressed by the token.
    Connect,
    /// Connected; on entry one direct snapshot is taken as a seed in case
    /// the push feed is delayed, then frames are processed.
    Streaming,
}

/// Phase order of a session attempt: each step succeeds into the next
/// phase; any failure abandons the attempt (`None`) and the caller runs the
/// backoff.
pub fn session_advance(phase: SessionPhase, step_succeeded: bool) -> (r: Option<SessionPhase>)
    ensures
        !step_succeeded ==> r is None,
        step_succeeded && phase == SessionPhase::RequestSessionToken ==> r == Some(
            SessionPhase::Connect,
        ),
        step_succeeded && phase == SessionPhase::Connect ==> r == Some(SessionPhase::Streaming),
        step_succeeded && phase == SessionPhase::Streaming ==> r == Some(SessionPhase::Streaming),
{
    if !step_succeeded {
        None
    } else {
        match phase {
            SessionPhase::RequestSessionToken => Some(SessionPhase::Connect),
            SessionPhase::Connect => Some(SessionPhase::Streaming),
            SessionPhase::Streaming => Some(SessionPhase::Streaming),
        }
    }
}

} // verus!

//! The connection worker's lifecycle, as a state machine over job messages.
//!
//! A worker is idle (waiting on the job channel), active (serving exactly
//! one connection), or terminated (its thread function has returned). The
//! unverified shell runs the loop: it blocks on the channel while idle,
//! polls it while active, and feeds each consumed message through
//! [`worker_on_message`]; a transport, codec or table failure ends the
//! current session through [`end_session`]. Whatever the step returns in
//! its second component is a connection the worker no longer serves, and
//! the shell must drop it so the socket closes.
//!
//! `S` is whatever stands for one live connection.

use vstd::prelude::*;

use crate::shared::WorkerMessage;

verus! {

/// The lifecycle phase of one worker, carrying the connection it serves
/// while active.
pub enum WorkerState<S> {
    Idle,
    Active(S),
    Terminated,
}

/// The transition table for one consumed job message: the next state, and
/// the connection released for closing, if any.
///
/// While idle, `Work` starts a session, `Death` terminates the worker and
/// `EndJob` is a stale cancellation with nothing to cancel. While active,
/// only `EndJob` is acted on (the session ends, its connection released);
/// a `Work` consumed mid-session loses its connection, and a `Death`
/// consumed mid-session is lost — teardown therefore ends the session
/// first, so the `Death` is met idle (see [`lemma_shutdown_terminates`]).
pub open spec fn spec_worker_on_message<S>(st: WorkerState<S>, msg: WorkerMessage<S>) -> (
    WorkerState<S>,
    Option<S>,
) {
    match st {
        WorkerState::Idle => match msg {
            WorkerMessage::Work(conn) => (WorkerState::Active(conn), None),
            WorkerMessage::EndJob => (WorkerState::Idle, None),
            WorkerMessage::Death => (WorkerState::Terminated, None),
        },
        WorkerState::Active(cur) => match msg {
            WorkerMessage::EndJob => (WorkerState::Idle, Some(cur)),
            WorkerMessage::Work(conn) => (WorkerState::Active(cur), Some(conn)),
            WorkerMessage::Death => (WorkerState::Active(cur), None),
        },
        WorkerState::Terminated => match msg {
            WorkerMessage::Work(conn) => (WorkerState::Terminated, Some(conn)),
            WorkerMessage::EndJob => (WorkerState::Terminated, None),
            WorkerMessage::Death => (WorkerState::Terminated, None),
        },
    }
}

/// What ending the current session does: an active worker returns to idle
/// and releases its connection; any other state is unchanged. This is the
/// transition a read, decode or table failure takes, and the one the
/// teardown forces on a worker blocked in a read by making every table
/// access fail.
pub open spec fn spec_end_session<S>(st: WorkerState<S>) -> (WorkerState<S>, Option<S>) {
    match st {
        WorkerState::Active(cur) => (WorkerState::Idle, Some(cur)),
        WorkerState::Idle => (WorkerState::Idle, None),
        WorkerState::Terminated => (WorkerState::Terminated, None),
    }
}

/// Consume one job message: see [`spec_worker_on_message`].
pub fn worker_on_message<S>(st: WorkerState<S>, msg: WorkerMessage<S>) -> (r: (
    WorkerState<S>,
    Option<S>,
))
    ensures
        r == spec_worker_on_message(st, msg),
{
    match st {
        WorkerState::Idle => match msg {
            WorkerMessage::Work(conn) => (WorkerState::Active(conn), None),
            WorkerMessage::EndJob => (WorkerState::Idle, None),
            WorkerMessage::Death => (WorkerState::Terminated, None),
        },
        WorkerState::Active(cur) => match msg {
            WorkerMessage::EndJob => (WorkerState::Idle, Some(cur)),
            WorkerMessage::Work(conn) => (WorkerState::Active(cur), Some(conn)),
            WorkerMessage::Death => (WorkerState::Active(cur), None),
        },
        WorkerState::Terminated => match msg {
            WorkerMessage::Work(conn) => (WorkerState::Terminated, Some(conn)),
            WorkerMessage::EndJob => (WorkerState::Terminated, None),
            WorkerMessage::Death => (WorkerState::Terminated, None),
        },
    }
}

/// End the current session, if one is running: see [`spec_end_session`].
pub fn end_session<S>(st: WorkerState<S>) -> (r: (WorkerState<S>, Option<S>))
    ensures
        r == spec_end_session(st),
{
    match st {
        WorkerState::Active(cur) => (WorkerState::Idle, Some(cur)),
        WorkerState::Idle => (WorkerState::Idle, None),
        WorkerState::Terminated => (WorkerState::Terminated, None),
    }
}

/// What one protocol iteration ran into, as far as the session's fate is
/// concerned.
pub enum SessionEvent {
    /// The iteration went through: read, merge or replace, write.
    Completed,
    /// The socket write failed.
    WriteFailed,
    /// The socket read failed.
    ReadFailed,
    /// The received buffer held no usable data.
    DecodeFailed,
    /// The shared table could not be reached (its lock has been made
    /// unusable by teardown).
    TableUnavailable,
}

/// The in-loop failure policy: whether the session goes on to its next
/// iteration after `event`. A failed write is best-effort — logged and the
/// iteration continues; a failed read or decode, or a table that is gone,
/// ends the session (the connection is dropped and self-heals by
/// reconnection, not repaired in place).
pub open spec fn spec_session_continues(event: SessionEvent) -> bool {
    match event {
        SessionEvent::Completed => true,
        SessionEvent::WriteFailed => true,
        SessionEvent::ReadFailed => false,
        SessionEvent::DecodeFailed => false,
        SessionEvent::TableUnavailable => false,
    }
}

/// Executable form of [`spec_session_continues`]: the shell asks it after
/// every iteration outcome and takes [`end_session`] when it answers no.
pub fn session_continues(event: SessionEvent) -> (r: bool)
    ensures
        r == spec_session_continues(event),
{
    match event {
        SessionEvent::Completed => true,
        SessionEvent::WriteFailed => true,
        SessionEvent::ReadFailed => false,
        SessionEvent::DecodeFailed => false,
        SessionEvent::TableUnavailable => false,
    }
}

/// Reconnect safety: delivering `EndJob` and then `Work(next)` to a worker
/// that has not terminated leaves it serving exactly the new connection,
/// and if a session was running its connection was released by the first
/// step — afterwards there is one active session, on `next`.
pub proof fn lemma_reconnect_single_session<S>(st: WorkerState<S>, next: S)
    requires
        !(st is Terminated),
    ensures
        ({
            let (mid, released) = spec_worker_on_message(st, WorkerMessage::EndJob);
            let (end, stray) = spec_worker_on_message(mid, WorkerMessage::Work(next));
            &&& end == WorkerState::Active(next)
            &&& stray is None
            &&& st matches WorkerState::Active(cur) ==> released == Some(cur)
            &&& st is Idle ==> released is None
        }),
{
}

/// Teardown terminates: once the session is force-ended (every table access
/// failing unblocks an active worker and ends its session) and the queued
/// `EndJob` and `Death` are consumed, the worker has terminated — from
/// every starting state.
pub proof fn lemma_shutdown_terminates<S>(st: WorkerState<S>)
    ensures
        ({
            let (unblocked, _) = spec_end_session(st);
            let (mid, _) = spec_worker_on_message(unblocked, WorkerMessage::EndJob);
            let (end, _) = spec_worker_on_message(mid, WorkerMessage::Death);
            end is Terminated
        }),
{
}

} // verus!

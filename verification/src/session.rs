//! The instrument session's state machine.
//!
//! A session owns one instrument connection and runs a read loop beside an
//! independent command-writer task.  The decisions of those loops are this
//! step function: which events keep the session active, which close it, and
//! when the paired writer must be cancelled — the writer waits on the command
//! topic indefinitely and has no other termination signal.  The process
//! around the library feeds it the events its loops observe and performs the
//! returned action.

use vstd::prelude::*;

verus! {

/// The life of a session: accepted connections enter Active immediately (no
/// handshake) and end in Closed; no reconnection happens within a session.
#[derive(Clone, Copy, Debug, PartialEq, Eq, Structural)]
pub enum SessionState {
    Connecting,
    Active,
    Closed,
}

/// What a session's loops can observe.
#[derive(Clone, Copy, Debug, PartialEq, Eq, Structural)]
pub enum SessionEvent {
    /// The listener accepted the connection.
    Accepted,
    /// The read loop received a line (of any kind).
    LineRead,
    /// The instrument closed its end of the stream.
    ReadEof,
    /// Reading from the instrument failed.
    ReadError,
    /// Writing a command to the instrument, or flushing it, failed.
    WriteError,
}

/// What the surrounding process must do after a step.
#[derive(Clone, Copy, Debug, PartialEq, Eq, Structural)]
pub enum SessionAction {
    /// Carry on; no task management is needed.
    Proceed,
    /// Cancel the paired command-writer task now.
    CancelWriter,
}

/// The transition table.  The read loop ending, by end-of-stream or error,
/// closes the session and cancels the writer in the same step; a write
/// failure closes the session (the writer is already stopping by itself); a
/// closed session stays closed.
pub open spec fn spec_session_step(s: SessionState, e: SessionEvent) -> (SessionState,
    SessionAction) {
    match s {
        SessionState::Connecting => match e {
            SessionEvent::Accepted => (SessionState::Active, SessionAction::Proceed),
            _ => (SessionState::Closed, SessionAction::Proceed),
        },
        SessionState::Active => match e {
            SessionEvent::Accepted => (SessionState::Active, SessionAction::Proceed),
            SessionEvent::LineRead => (SessionState::Active, SessionAction::Proceed),
            SessionEvent::ReadEof => (SessionState::Closed, SessionAction::CancelWriter),
            SessionEvent::ReadError => (SessionState::Closed, SessionAction::CancelWriter),
            SessionEvent::WriteError => (SessionState::Closed, SessionAction::Proceed),
        },
        SessionState::Closed => (SessionState::Closed, SessionAction::Proceed),
    }
}

/// One step of the session: the next state and the action the process must
/// perform.
pub fn session_step(s: SessionState, e: SessionEvent) -> (r: (SessionState, SessionAction))
    ensures
        r == spec_session_step(s, e),
{
    match s {
        SessionState::Connecting => match e {
            SessionEvent::Accepted => (SessionState::Active, SessionAction::Proceed),
            _ => (SessionState::Closed, SessionAction::Proceed),
        },
        SessionState::Active => match e {
            SessionEvent::Accepted => (SessionState::Active, SessionAction::Proceed),
            SessionEvent::LineRead => (SessionState::Active, SessionAction::Proceed),
            SessionEvent::ReadEof => (SessionState::Closed, SessionAction::CancelWriter),
            SessionEvent::ReadError => (SessionState::Closed, SessionAction::CancelWriter),
            SessionEvent::WriteError => (SessionState::Closed, SessionAction::Proceed),
        },
        SessionState::Closed => (SessionState::Closed, SessionAction::Proceed),
    }
}

/// Law: when the read loop of an active session ends, by end-of-stream or by
/// a read error, the very same step closes the session and cancels its paired
/// command writer: no event leaves the writer running without its reader.
pub proof fn lemma_read_end_cancels_writer(e: SessionEvent)
    ensures
        (e == SessionEvent::ReadEof || e == SessionEvent::ReadError)
            ==> spec_session_step(SessionState::Active, e) == (
            SessionState::Closed,
            SessionAction::CancelWriter,
        ),
        spec_session_step(SessionState::Active, e).1 == SessionAction::CancelWriter ==> (e
            == SessionEvent::ReadEof || e == SessionEvent::ReadError),
{
}

} // verus!

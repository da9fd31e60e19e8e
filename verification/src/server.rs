//! The decision core of the serving loop.  The loop itself — binding a
//! listener, accepting sockets, reading a bounded buffer, writing the
//! response — lives in the surrounding application; each iteration hands
//! the outcome of its socket work to [`serve_step`] and follows the action
//! it returns.
//!
//! A connection that delivers zero bytes ends the whole serving loop: the
//! application returns the read-failure error from its serve function.
//! Every other per-connection failure is reported and the loop keeps
//! listening.

use vstd::prelude::*;

verus! {

/// What one accepted connection produced, as far as the loop's decisions
/// are concerned.
#[derive(Clone, Copy, Debug, PartialEq, Eq, Structural)]
pub enum ConnectionEvent {
    /// Accepting the connection failed.
    AcceptFailed,
    /// Reading from the connection failed.
    ReadFailed,
    /// A read completed: how many bytes arrived, and whether they decoded
    /// as UTF-8 text.
    Received { bytes_read: usize, decode_ok: bool },
}

/// What the serving loop does next.
#[derive(Clone, Copy, Debug, PartialEq, Eq, Structural)]
pub enum ServeAction {
    /// Drop the connection, report if anything failed, and keep listening.
    ContinueListening,
    /// End the serving loop with a read-failure error.
    TerminateServer,
    /// Hand the decoded request text to the dispatcher, then answer.
    DispatchRequest,
}

/// Decides the loop's next action from one connection's outcome.  Accept,
/// read and decode failures drop the connection and keep the loop alive; a
/// successful read of zero bytes is fatal to the whole loop; anything else
/// is dispatched.
pub fn serve_step(event: ConnectionEvent) -> (a: ServeAction)
    ensures
        event == ConnectionEvent::AcceptFailed ==> a == ServeAction::ContinueListening,
        event == ConnectionEvent::ReadFailed ==> a == ServeAction::ContinueListening,
        forall|n: usize|
            event == (ConnectionEvent::Received { bytes_read: n, decode_ok: false }) ==> a
                == ServeAction::ContinueListening,
        event == (ConnectionEvent::Received { bytes_read: 0, decode_ok: true }) ==> a
            == ServeAction::TerminateServer,
        forall|n: usize|
            n > 0 && event == (ConnectionEvent::Received { bytes_read: n, decode_ok: true }) ==> a
                == ServeAction::DispatchRequest,
{
    match event {
        ConnectionEvent::AcceptFailed => ServeAction::ContinueListening,
        ConnectionEvent::ReadFailed => ServeAction::ContinueListening,
        ConnectionEvent::Received { bytes_read, decode_ok } => {
            if !decode_ok {
                ServeAction::ContinueListening
            } else if bytes_read == 0 {
                ServeAction::TerminateServer
            } else {
                ServeAction::DispatchRequest
            }
        },
    }
}

} // verus!

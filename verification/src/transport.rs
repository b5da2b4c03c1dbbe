//! The transport contract: the result taxonomy of a delivery attempt and
//! the typed command API.
//!
//! Delivery itself — opening the well-known endpoint, writing the record,
//! flushing and closing — is operating-system I/O and is performed by the
//! caller. The caller reports what the transport did as a [`SendEvent`],
//! and [`send_outcome`] fixes, once and for all, which caller-visible
//! result each event maps to. The command API builds the exact record the
//! server expects for each of the four commands.

use crate::codec::encode;
use crate::codec::encoded;
use crate::codec::TraymondCommand;
use crate::codec::RECORD_LEN;
use vstd::prelude::*;

verus! {

/// Why a delivery attempt failed.
#[derive(Debug, Clone, Copy, PartialEq, Eq, Structural)]
pub enum TransportError {
    /// No listener exists at the endpoint: the server is not running, or
    /// its pipe is not created yet.
    EndpointUnavailable,
    /// The connection opened but the record was not written in full: the
    /// write was interrupted, partial, or the peer closed the channel.
    WriteFailed,
}

/// What the operating-system transport reported for one delivery attempt.
#[derive(Debug, Clone, Copy, PartialEq, Eq, Structural)]
pub enum SendEvent {
    /// Opening the endpoint failed: nothing was listening there.
    ConnectFailed,
    /// The connection opened, but writing or flushing the record failed.
    WriteInterrupted,
    /// The connection opened and every byte was written and flushed.
    WriteCompleted,
}

/// The caller-visible result each transport event maps to.
pub open spec fn outcome_of(event: SendEvent) -> Result<(), TransportError> {
    match event {
        SendEvent::ConnectFailed => Err(TransportError::EndpointUnavailable),
        SendEvent::WriteInterrupted => Err(TransportError::WriteFailed),
        SendEvent::WriteCompleted => Ok(()),
    }
}

/// Maps what the transport reported to the result a caller sees.
///
/// The attempt succeeds exactly when the connection opened and the whole
/// record was written; a failure to open is `EndpointUnavailable`, and an
/// interrupted or partial write after a successful open is `WriteFailed`.
/// Nothing is read back: success means the bytes were handed to the
/// transport, not that the server processed them.
pub fn send_outcome(event: SendEvent) -> (r: Result<(), TransportError>)
    ensures
        r == outcome_of(event),
{
    match event {
        SendEvent::ConnectFailed => Err(TransportError::EndpointUnavailable),
        SendEvent::WriteInterrupted => Err(TransportError::WriteFailed),
        SendEvent::WriteCompleted => Ok(()),
    }
}

/// The typed command API: one constructor per command, each returning the
/// exact record to deliver to the server.
pub struct TraymondClient;

impl TraymondClient {
    /// The record that minimizes the currently focused window to the tray.
    pub fn minimize_current() -> (r: Vec<u8>)
        ensures
            r@ == encoded(TraymondCommand::MinimizeCurrent),
            r@.len() == RECORD_LEN,
    {
        encode(TraymondCommand::MinimizeCurrent)
    }

    /// The record that minimizes the window with the given handle to the
    /// tray.
    pub fn minimize_by_handle(handle: usize) -> (r: Vec<u8>)
        ensures
            r@ == encoded(TraymondCommand::MinimizeByHandle(handle)),
            r@.len() == RECORD_LEN,
    {
        encode(TraymondCommand::MinimizeByHandle(handle))
    }

    /// The record that restores every window minimized to the tray.
    pub fn show_all() -> (r: Vec<u8>)
        ensures
            r@ == encoded(TraymondCommand::ShowAll),
            r@.len() == RECORD_LEN,
    {
        encode(TraymondCommand::ShowAll)
    }

    /// The record that asks the server to exit.
    pub fn exit() -> (r: Vec<u8>)
        ensures
            r@ == encoded(TraymondCommand::Exit),
            r@.len() == RECORD_LEN,
    {
        encode(TraymondCommand::Exit)
    }
}

} // verus!

//! Client-side core of a control channel for a tray-management server.
//!
//! The library covers the two parts of the protocol that client and server
//! must agree on exactly: the fixed-layout binary record that carries a
//! command ([`codec`]) and the result taxonomy of a delivery attempt over
//! the local endpoint ([`transport`]). Opening the endpoint and writing the
//! bytes is operating-system I/O and stays with the caller; everything the
//! caller must get right — the bytes to send and what each transport
//! outcome means — is stated and proved here.

pub mod codec;
pub mod transport;

pub use codec::encode;
pub use codec::IPCMessage;
pub use codec::TraymondCommand;
pub use codec::IPC_EXIT;
pub use codec::IPC_MINIMIZE_BY_HANDLE;
pub use codec::IPC_MINIMIZE_CURRENT;
pub use codec::IPC_SHOW_ALL;
pub use codec::RECORD_LEN;
pub use transport::send_outcome;
pub use transport::SendEvent;
pub use transport::TransportError;
pub use transport::TraymondClient;

//! The message codec: the fixed-layout wire record and its serialization.
//!
//! A record is always 268 bytes: a four-byte command code, an eight-byte
//! window handle, and a reserved 256-byte title buffer. The handle field is
//! fixed at eight bytes — wider than the handle itself on a 32-bit build —
//! so that both ends agree on the layout whatever their word size. Both
//! integer fields are written little-endian, the byte order shared by
//! client and server on the platforms the channel runs on.

use vstd::bytes::lemma_auto_spec_u32_to_from_le_bytes;
use vstd::bytes::lemma_auto_spec_u64_to_from_le_bytes;
use vstd::bytes::spec_u32_from_le_bytes;
use vstd::bytes::spec_u32_to_le_bytes;
use vstd::bytes::spec_u64_from_le_bytes;
use vstd::bytes::spec_u64_to_le_bytes;
use vstd::bytes::u32_to_le_bytes;
use vstd::bytes::u64_to_le_bytes;
use vstd::prelude::*;

verus! {

/// Wire code for minimizing the currently focused window.
pub const IPC_MINIMIZE_CURRENT: i32 = 1;

/// Wire code for minimizing a window chosen by its handle.
pub const IPC_MINIMIZE_BY_HANDLE: i32 = 2;

/// Wire code for restoring every window minimized to the tray.
pub const IPC_SHOW_ALL: i32 = 3;

/// Wire code for asking the server to exit.
pub const IPC_EXIT: i32 = 4;

/// Size in bytes of the command-code field.
pub const COMMAND_FIELD_LEN: usize = 4;

/// Size in bytes of the window-handle field.
pub const HANDLE_FIELD_LEN: usize = 8;

/// Size in bytes of the reserved window-title buffer.
pub const TITLE_FIELD_LEN: usize = 256;

/// Total size in bytes of every serialized record.
pub const RECORD_LEN: usize = 268;

/// A logical command for the tray-management server.
#[derive(Debug, Clone, Copy, PartialEq, Eq, Structural)]
pub enum TraymondCommand {
    /// Minimize the currently focused window to the tray.
    MinimizeCurrent,
    /// Minimize the window with the given handle to the tray.
    MinimizeByHandle(usize),
    /// Restore every window that was minimized to the tray.
    ShowAll,
    /// Ask the server to exit.
    Exit,
}

/// The fixed-layout record sent over the control channel.
///
/// Field order on the wire is `command`, then `window_handle`, then
/// `window_title`; there is no framing, length prefix or checksum.
#[derive(Debug, Clone)]
pub struct IPCMessage {
    /// The command code, one of the `IPC_*` constants.
    pub command: i32,
    /// The window handle; meaningful only for minimize-by-handle and zero
    /// for every other command.
    pub window_handle: usize,
    /// Reserved space, zero-filled by every current command.
    pub window_title: [u8; 256],
}

/// The wire code a command is sent as.
pub open spec fn command_code(cmd: TraymondCommand) -> i32 {
    match cmd {
        TraymondCommand::MinimizeCurrent => IPC_MINIMIZE_CURRENT,
        TraymondCommand::MinimizeByHandle(_) => IPC_MINIMIZE_BY_HANDLE,
        TraymondCommand::ShowAll => IPC_SHOW_ALL,
        TraymondCommand::Exit => IPC_EXIT,
    }
}

/// The handle a command carries; zero for the commands without a payload.
pub open spec fn command_handle(cmd: TraymondCommand) -> usize {
    match cmd {
        TraymondCommand::MinimizeByHandle(handle) => handle,
        _ => 0,
    }
}

/// The contents of the reserved title buffer: all zero.
pub open spec fn zero_title() -> Seq<u8> {
    Seq::new(TITLE_FIELD_LEN as nat, |i: int| 0u8)
}

impl IPCMessage {
    /// The serialized form of this record: the command code as four
    /// little-endian bytes, the handle widened to eight little-endian
    /// bytes, then the title buffer.
    pub open spec fn wire_bytes(self) -> Seq<u8> {
        spec_u32_to_le_bytes(self.command as u32) + spec_u64_to_le_bytes(
            self.window_handle as u64,
        ) + self.window_title@
    }

    /// Serializes this record field by field into its exact wire form.
    pub fn to_bytes(&self) -> (r: Vec<u8>)
        ensures
            r@ == self.wire_bytes(),
            r@.len() == RECORD_LEN,
    {
        proof {
            lemma_auto_spec_u32_to_from_le_bytes();
            lemma_auto_spec_u64_to_from_le_bytes();
        }
        let mut r = u32_to_le_bytes(self.command as u32);
        let mut handle_bytes = u64_to_le_bytes(self.window_handle as u64);
        r.append(&mut handle_bytes);
        let ghost prefix = r@;
        let mut i: usize = 0;
        while i < TITLE_FIELD_LEN
            invariant
                i <= TITLE_FIELD_LEN,
                r@ == prefix + self.window_title@.subrange(0, i as int),
            decreases TITLE_FIELD_LEN - i,
        {
            r.push(self.window_title[i]);
            proof {
                assert(prefix + self.window_title@.subrange(0, i as int) + seq![
                    self.window_title@[i as int],
                ] =~= prefix + self.window_title@.subrange(0, i as int + 1));
            }
            i = i + 1;
        }
        proof {
            assert(self.window_title@.subrange(0, TITLE_FIELD_LEN as int) =~= self.window_title@);
            assert(r@ =~= self.wire_bytes());
        }
        r
    }
}

impl From<TraymondCommand> for IPCMessage {
    /// Builds the record for a command: the matching code, the command's
    /// handle, and a zero-filled title buffer.
    fn from(cmd: TraymondCommand) -> (m: IPCMessage) {
        match cmd {
            TraymondCommand::MinimizeCurrent => IPCMessage {
                command: IPC_MINIMIZE_CURRENT,
                window_handle: 0,
                window_title: [0u8; 256],
            },
            TraymondCommand::MinimizeByHandle(handle) => IPCMessage {
                command: IPC_MINIMIZE_BY_HANDLE,
                window_handle: handle,
                window_title: [0u8; 256],
            },
            TraymondCommand::ShowAll => IPCMessage {
                command: IPC_SHOW_ALL,
                window_handle: 0,
                window_title: [0u8; 256],
            },
            TraymondCommand::Exit => IPCMessage {
                command: IPC_EXIT,
                window_handle: 0,
                window_title: [0u8; 256],
            },
        }
    }
}

impl vstd::std_specs::convert::FromSpecImpl<TraymondCommand> for IPCMessage {
    open spec fn obeys_from_spec() -> bool {
        true
    }

    open spec fn from_spec(cmd: TraymondCommand) -> IPCMessage {
        IPCMessage {
            command: command_code(cmd),
            window_handle: command_handle(cmd),
            window_title: vstd::array::spec_array_fill_for_copy_type::<u8, 256>(0u8),
        }
    }
}

/// The byte sequence `encode` produces for a command.
pub open spec fn encoded(cmd: TraymondCommand) -> Seq<u8> {
    spec_u32_to_le_bytes(command_code(cmd) as u32) + spec_u64_to_le_bytes(
        command_handle(cmd) as u64,
    ) + zero_title()
}

/// Builds the wire record for `cmd` and serializes it.
///
/// Encoding a command cannot fail, and every command yields a record of
/// the same fixed length.
pub fn encode(cmd: TraymondCommand) -> (r: Vec<u8>)
    ensures
        r@ == encoded(cmd),
        r@.len() == RECORD_LEN,
{
    let m = IPCMessage::from(cmd);
    proof {
        assert(m.window_title@ =~= zero_title());
        assert(m.wire_bytes() =~= encoded(cmd));
    }
    m.to_bytes()
}

/// The command code read back from a serialized record: its first four
/// bytes, as a little-endian integer.
pub open spec fn decoded_command(bytes: Seq<u8>) -> u32
    recommends
        bytes.len() == RECORD_LEN,
{
    spec_u32_from_le_bytes(bytes.subrange(0, COMMAND_FIELD_LEN as int))
}

/// The window handle read back from a serialized record: bytes four to
/// eleven, as a little-endian integer.
pub open spec fn decoded_handle(bytes: Seq<u8>) -> u64
    recommends
        bytes.len() == RECORD_LEN,
{
    spec_u64_from_le_bytes(
        bytes.subrange(COMMAND_FIELD_LEN as int, (COMMAND_FIELD_LEN + HANDLE_FIELD_LEN) as int),
    )
}

/// The reserved title buffer read back from a serialized record: its last
/// 256 bytes.
pub open spec fn decoded_title(bytes: Seq<u8>) -> Seq<u8>
    recommends
        bytes.len() == RECORD_LEN,
{
    bytes.subrange((COMMAND_FIELD_LEN + HANDLE_FIELD_LEN) as int, RECORD_LEN as int)
}

/// Round trip on the structured fields: reinterpreting an encoded record
/// under the record layout recovers the command's code and handle exactly,
/// for every command, and the reserved buffer is all zero.
pub proof fn lemma_encode_round_trip(cmd: TraymondCommand)
    ensures
        decoded_command(encoded(cmd)) == command_code(cmd),
        decoded_handle(encoded(cmd)) == command_handle(cmd),
        decoded_title(encoded(cmd)) == zero_title(),
{
    lemma_auto_spec_u32_to_from_le_bytes();
    lemma_auto_spec_u64_to_from_le_bytes();
    assert(encoded(cmd).subrange(0, 4) =~= spec_u32_to_le_bytes(command_code(cmd) as u32));
    assert(encoded(cmd).subrange(4, 12) =~= spec_u64_to_le_bytes(command_handle(cmd) as u64));
    assert(decoded_title(encoded(cmd)) =~= zero_title());
}

/// Minimize-by-handle encodes code 2 and the handle exactly, for every
/// representable handle value.
pub proof fn lemma_minimize_by_handle_fields(handle: usize)
    ensures
        decoded_command(encoded(TraymondCommand::MinimizeByHandle(handle)))
            == IPC_MINIMIZE_BY_HANDLE,
        decoded_handle(encoded(TraymondCommand::MinimizeByHandle(handle))) == handle,
{
    lemma_encode_round_trip(TraymondCommand::MinimizeByHandle(handle));
}

/// The three commands without a payload encode a zero handle field and the
/// command codes 1, 3 and 4.
pub proof fn lemma_payloadless_fields()
    ensures
        decoded_command(encoded(TraymondCommand::MinimizeCurrent)) == IPC_MINIMIZE_CURRENT,
        decoded_handle(encoded(TraymondCommand::MinimizeCurrent)) == 0,
        decoded_command(encoded(TraymondCommand::ShowAll)) == IPC_SHOW_ALL,
        decoded_handle(encoded(TraymondCommand::ShowAll)) == 0,
        decoded_command(encoded(TraymondCommand::Exit)) == IPC_EXIT,
        decoded_handle(encoded(TraymondCommand::Exit)) == 0,
{
    lemma_encode_round_trip(TraymondCommand::MinimizeCurrent);
    lemma_encode_round_trip(TraymondCommand::ShowAll);
    lemma_encode_round_trip(TraymondCommand::Exit);
}

/// Every command serializes to a record of the same fixed length.
pub proof fn lemma_fixed_record_len(a: TraymondCommand, b: TraymondCommand)
    ensures
        encoded(a).len() == RECORD_LEN,
        encoded(a).len() == encoded(b).len(),
{
    lemma_auto_spec_u32_to_from_le_bytes();
    lemma_auto_spec_u64_to_from_le_bytes();
}

} // verus!

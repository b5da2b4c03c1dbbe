use traymond_client::encode;
use traymond_client::IPCMessage;
use traymond_client::TraymondCommand;
use traymond_client::TraymondClient;
use traymond_client::IPC_EXIT;
use traymond_client::IPC_MINIMIZE_BY_HANDLE;
use traymond_client::IPC_MINIMIZE_CURRENT;
use traymond_client::IPC_SHOW_ALL;
use traymond_client::RECORD_LEN;

/// Reads the four-byte little-endian command code back from a record.
fn read_command(bytes: &[u8]) -> u32 {
    (bytes[0] as u32)
        | ((bytes[1] as u32) << 8)
        | ((bytes[2] as u32) << 16)
        | ((bytes[3] as u32) << 24)
}

/// Reads the eight-byte little-endian window handle back from a record.
fn read_handle(bytes: &[u8]) -> u64 {
    let mut handle: u64 = 0;
    for i in 0..8 {
        handle |= (bytes[4 + i] as u64) << (8 * i);
    }
    handle
}

/// Checks that the reserved title buffer of a record is 256 zero bytes.
fn title_is_zero(bytes: &[u8]) -> bool {
    bytes.len() == RECORD_LEN && bytes[12..].iter().all(|&b| b == 0)
}

#[test]
fn encode_round_trips_every_variant() {
    let commands = vec![
        (TraymondCommand::MinimizeCurrent, 1u32, 0u64),
        (TraymondCommand::MinimizeByHandle(0xDEAD_BEEF), 2u32, 0xDEAD_BEEFu64),
        (TraymondCommand::ShowAll, 3u32, 0u64),
        (TraymondCommand::Exit, 4u32, 0u64),
    ];
    for (cmd, code, handle) in commands {
        let bytes = encode(cmd);
        assert_eq!(read_command(&bytes), code);
        assert_eq!(read_handle(&bytes), handle);
        assert!(title_is_zero(&bytes));
    }
}

#[test]
fn minimize_by_handle_keeps_handle_exactly() {
    let zero = encode(TraymondCommand::MinimizeByHandle(0));
    assert_eq!(read_command(&zero), IPC_MINIMIZE_BY_HANDLE as u32);
    assert_eq!(read_handle(&zero), 0);

    let max = encode(TraymondCommand::MinimizeByHandle(usize::MAX));
    assert_eq!(read_command(&max), IPC_MINIMIZE_BY_HANDLE as u32);
    assert_eq!(read_handle(&max), usize::MAX as u64);
}

#[test]
fn payloadless_commands_have_zero_handle() {
    let cases = vec![
        (TraymondCommand::MinimizeCurrent, IPC_MINIMIZE_CURRENT),
        (TraymondCommand::ShowAll, IPC_SHOW_ALL),
        (TraymondCommand::Exit, IPC_EXIT),
    ];
    for (cmd, code) in cases {
        let bytes = encode(cmd);
        assert_eq!(read_command(&bytes), code as u32);
        assert_eq!(read_handle(&bytes), 0);
    }
}

#[test]
fn every_record_has_the_same_length() {
    let lengths = vec![
        encode(TraymondCommand::MinimizeCurrent).len(),
        encode(TraymondCommand::MinimizeByHandle(42)).len(),
        encode(TraymondCommand::ShowAll).len(),
        encode(TraymondCommand::Exit).len(),
    ];
    for len in lengths {
        assert_eq!(len, RECORD_LEN);
        assert_eq!(len, 4 + 8 + 256);
    }
}

#[test]
fn minimize_by_handle_scenario() {
    let bytes = encode(TraymondCommand::MinimizeByHandle(0x1A2B3C));
    assert_eq!(read_command(&bytes), 2);
    assert_eq!(read_handle(&bytes), 1715004);
    assert!(title_is_zero(&bytes));
    assert_eq!(bytes.len(), 4 + 8 + 256);
    assert_eq!(&bytes[0..4], &[0x02, 0x00, 0x00, 0x00]);
    assert_eq!(&bytes[4..12], &[0x3C, 0x2B, 0x1A, 0x00, 0x00, 0x00, 0x00, 0x00]);
}

#[test]
fn message_from_command_fills_fields() {
    let m = IPCMessage::from(TraymondCommand::MinimizeByHandle(7));
    assert_eq!(m.command, 2);
    assert_eq!(m.window_handle, 7);
    assert!(m.window_title.iter().all(|&b| b == 0));

    let m = IPCMessage::from(TraymondCommand::MinimizeCurrent);
    assert_eq!(m.command, 1);
    assert_eq!(m.window_handle, 0);

    let m = IPCMessage::from(TraymondCommand::ShowAll);
    assert_eq!(m.command, 3);
    assert_eq!(m.window_handle, 0);

    let m = IPCMessage::from(TraymondCommand::Exit);
    assert_eq!(m.command, 4);
    assert_eq!(m.window_handle, 0);
}

#[test]
fn to_bytes_serializes_the_title_buffer_as_given() {
    let mut m = IPCMessage::from(TraymondCommand::ShowAll);
    m.window_title[0] = 7;
    m.window_title[255] = 9;
    let bytes = m.to_bytes();
    assert_eq!(bytes.len(), RECORD_LEN);
    assert_eq!(bytes[12], 7);
    assert_eq!(bytes[267], 9);
    assert!(!title_is_zero(&bytes));
}

#[test]
fn client_constructors_match_encode() {
    assert_eq!(TraymondClient::minimize_current(), encode(TraymondCommand::MinimizeCurrent));
    assert_eq!(
        TraymondClient::minimize_by_handle(0x77),
        encode(TraymondCommand::MinimizeByHandle(0x77))
    );
    assert_eq!(TraymondClient::show_all(), encode(TraymondCommand::ShowAll));
    assert_eq!(TraymondClient::exit(), encode(TraymondCommand::Exit));
}

#[test]
fn test_minimize_current() {
    let bytes = TraymondClient::minimize_current();
    assert_eq!(read_command(&bytes), IPC_MINIMIZE_CURRENT as u32);
    assert_eq!(read_handle(&bytes), 0);
    assert!(title_is_zero(&bytes));
}

#[test]
fn test_show_all() {
    let bytes = TraymondClient::show_all();
    assert_eq!(read_command(&bytes), IPC_SHOW_ALL as u32);
    assert_eq!(read_handle(&bytes), 0);
    assert!(title_is_zero(&bytes));
}

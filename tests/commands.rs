use flicbtn::{Command, CommandToByteMapper, EncodeError, FieldReader, LatencyMode};

const ADDR: &str = "80:e4:da:76:fa:55";
const ADDR_WIRE: [u8; 6] = [0x55, 0xfa, 0x76, 0xda, 0xe4, 0x80];

fn encode(c: Command) -> Result<Vec<u8>, EncodeError> {
    CommandToByteMapper::new().map(c)
}

#[test]
fn command_opcodes() {
    let a = || ADDR.to_string();
    let cases = vec![
        (Command::GetInfo, 0),
        (Command::CreateScanner { scan_id: 1 }, 1),
        (Command::RemoveScanner { scan_id: 1 }, 2),
        (
            Command::CreateConnectionChannel {
                conn_id: 1,
                bd_addr: a(),
                latency_mode: LatencyMode::NormalLatency,
                auto_disconnect_time: 0,
            },
            3,
        ),
        (Command::RemoveConnectionChannel { conn_id: 1 }, 4),
        (Command::ForceDisconnect { bd_addr: a() }, 5),
        (
            Command::ChangeModeParameters {
                conn_id: 1,
                latency_mode: LatencyMode::HighLatency,
                auto_disconnect_time: 0,
            },
            6,
        ),
        (Command::Ping { ping_id: 1 }, 7),
        (Command::GetButtonInfo { bd_addr: a() }, 8),
        (Command::CreateScanWizard { scan_wizard_id: 1 }, 9),
        (Command::CancelScanWizard { scan_wizard_id: 1 }, 10),
        (Command::DeleteButton { bd_addr: a() }, 11),
        (Command::CreateBatteryStatusListener { listener_id: 1, bd_addr: a() }, 12),
        (Command::RemoveBatteryStatusListener { listener_id: 1 }, 13),
    ];
    for (c, op) in cases {
        assert_eq!(c.opcode(), op);
        let frame = encode(c).unwrap();
        assert_eq!(frame[2], op);
        assert_eq!(frame[0] as usize + 256 * frame[1] as usize, frame.len() - 2);
    }
}

#[test]
fn get_info_is_a_bare_opcode() {
    assert_eq!(encode(Command::GetInfo), Ok(vec![1, 0, 0]));
}

#[test]
fn ping_frame() {
    assert_eq!(
        encode(Command::Ping { ping_id: 1 }),
        Ok(vec![5, 0, 7, 1, 0, 0, 0])
    );
    assert_eq!(
        encode(Command::Ping { ping_id: 0xdeadbeef }),
        Ok(vec![5, 0, 7, 0xef, 0xbe, 0xad, 0xde])
    );
}

#[test]
fn create_connection_channel_frame() {
    let frame = encode(Command::CreateConnectionChannel {
        conn_id: 0x01020304,
        bd_addr: ADDR.to_string(),
        latency_mode: LatencyMode::LowLatency,
        auto_disconnect_time: -1,
    })
    .unwrap();
    let mut expected = vec![14, 0, 3, 4, 3, 2, 1];
    expected.extend_from_slice(&ADDR_WIRE);
    expected.extend_from_slice(&[1, 0xff, 0xff]);
    assert_eq!(frame, expected);
}

#[test]
fn change_mode_parameters_frame() {
    assert_eq!(
        encode(Command::ChangeModeParameters {
            conn_id: 7,
            latency_mode: LatencyMode::HighLatency,
            auto_disconnect_time: 511,
        }),
        Ok(vec![8, 0, 6, 7, 0, 0, 0, 2, 0xff, 0x01])
    );
}

#[test]
fn battery_listener_frame() {
    let mut expected = vec![11, 0, 12, 9, 0, 0, 0];
    expected.extend_from_slice(&ADDR_WIRE);
    assert_eq!(
        encode(Command::CreateBatteryStatusListener {
            listener_id: 9,
            bd_addr: ADDR.to_string()
        }),
        Ok(expected)
    );
}

#[test]
fn malformed_addresses_are_rejected() {
    for bad in [
        "",
        "80:e4:da:76:fa",
        "80:e4:da:76:fa:55:00",
        "80-e4-da-76-fa-55",
        "80:E4:DA:76:FA:55",
        "80:e4:da:76:fa:5g",
        "x80:e4:da:76:fa:55",
        "80:e4:da:76:fa:55\n",
    ] {
        assert_eq!(
            encode(Command::DeleteButton { bd_addr: bad.to_string() }),
            Err(EncodeError::InvalidAddress),
            "{bad:?}"
        );
    }
    assert_eq!(
        encode(Command::CreateConnectionChannel {
            conn_id: 1,
            bd_addr: "nope".to_string(),
            latency_mode: LatencyMode::NormalLatency,
            auto_disconnect_time: 0,
        }),
        Err(EncodeError::InvalidAddress)
    );
}

#[test]
fn encoder_keeps_nothing_between_commands() {
    let mut m = CommandToByteMapper::new();
    let first = m.map(Command::ForceDisconnect { bd_addr: ADDR.to_string() });
    assert!(first.is_ok());
    let failed = m.map(Command::GetButtonInfo { bd_addr: "bad".to_string() });
    assert_eq!(failed, Err(EncodeError::InvalidAddress));
    assert_eq!(m.map(Command::RemoveScanner { scan_id: 2 }), Ok(vec![5, 0, 2, 2, 0, 0, 0]));
}

#[test]
fn encoded_fields_read_back_with_the_field_reader() {
    let frame = encode(Command::CreateConnectionChannel {
        conn_id: 4_000_000_000,
        bd_addr: "00:1a:2b:3c:4d:ff".to_string(),
        latency_mode: LatencyMode::HighLatency,
        auto_disconnect_time: -300,
    })
    .unwrap();
    let mut r = FieldReader::new(frame);
    assert_eq!(r.read_u16(), Some(14));
    assert_eq!(r.read_u8(), Some(3));
    assert_eq!(r.read_u32(), Some(4_000_000_000));
    assert_eq!(r.read_bdaddr(), Some("00:1a:2b:3c:4d:ff".to_string()));
    assert_eq!(
        r.read_u8().and_then(LatencyMode::from_u8),
        Some(LatencyMode::HighLatency)
    );
    assert_eq!(r.read_i16(), Some(-300));
    assert_eq!(r.read_u8(), None);
}

use flicbtn::{
    dispatch_order, BdAddrType, BluetoothControllerState, ByteToEventMapper, ClickType,
    ConnectionStatus, CreateConnectionChannelError, Event, EventResult, OpCode, RemovedReason,
    ScanWizardResult, MAX_BUFFERED,
};

const PING: [u8; 7] = [0x05, 0x00, 0x0d, 0x01, 0x00, 0x00, 0x00];

fn feed(m: &mut ByteToEventMapper, bytes: &[u8]) -> Vec<EventResult> {
    bytes.iter().map(|b| m.map(*b)).collect()
}

fn frame(op: u8, payload: &[u8]) -> Vec<u8> {
    let len = payload.len() + 1;
    let mut f = vec![(len % 256) as u8, (len / 256) as u8, op];
    f.extend_from_slice(payload);
    f
}

fn decode_one(op: u8, payload: &[u8]) -> EventResult {
    let mut m = ByteToEventMapper::new();
    feed(&mut m, &frame(op, payload)).pop().unwrap()
}

#[test]
fn ping_response_byte_by_byte() {
    let mut m = ByteToEventMapper::new();
    let results = feed(&mut m, &PING);
    for r in &results[..6] {
        assert_eq!(*r, EventResult::Pending);
    }
    assert_eq!(
        results[6],
        EventResult::Decoded(Event::PingResponse { ping_id: 1 })
    );
    assert_eq!(
        ByteToEventMapper::read_event(PING.to_vec()),
        Event::PingResponse { ping_id: 1 }
    );
    assert_eq!(m.decode_chunk(&PING), vec![Event::PingResponse { ping_id: 1 }]);
}

#[test]
fn length_field_counts_opcode_and_payload_only() {
    // a length of six announces eight bytes in all, so seven are not enough
    let mut m = ByteToEventMapper::new();
    let results = feed(&mut m, &[0x06, 0x00, 0x0d, 0x01, 0x00, 0x00, 0x00]);
    assert!(results.iter().all(|r| *r == EventResult::Pending));
    assert_eq!(
        m.map(0x77),
        EventResult::Decoded(Event::PingResponse { ping_id: 1 })
    );
}

#[test]
fn unknown_opcode_discards_the_accumulator() {
    let mut m = ByteToEventMapper::new();
    assert_eq!(
        feed(&mut m, &[0xff, 0xff, 0x99]),
        vec![
            EventResult::Pending,
            EventResult::Pending,
            EventResult::Failure(Event::CorruptEvent)
        ]
    );
    assert_eq!(m.decode_chunk(&PING), vec![Event::PingResponse { ping_id: 1 }]);
}

#[test]
fn overflow_drains_at_the_size_bound() {
    let mut stream = vec![0xff, 0xff, 0x00];
    stream.resize(MAX_BUFFERED, 0xaa);
    let mut m = ByteToEventMapper::new();
    let results = feed(&mut m, &stream[..MAX_BUFFERED - 1]);
    assert_eq!(results.len(), 2047);
    assert!(results.iter().all(|r| *r == EventResult::Pending));
    assert_eq!(m.map(stream[MAX_BUFFERED - 1]), EventResult::Drained);
    assert_eq!(m.decode_chunk(&PING), vec![Event::PingResponse { ping_id: 1 }]);
}

#[test]
fn short_payload_is_a_corrupt_package() {
    let mut m = ByteToEventMapper::new();
    assert_eq!(
        feed(&mut m, &[0x03, 0x00, 0x0d, 0x01, 0x00]),
        vec![
            EventResult::Pending,
            EventResult::Pending,
            EventResult::Pending,
            EventResult::Pending,
            EventResult::CorruptPackage
        ]
    );
    assert_eq!(m.decode_chunk(&PING), vec![Event::PingResponse { ping_id: 1 }]);
}

#[test]
fn frame_without_opcode_is_corrupt() {
    let mut m = ByteToEventMapper::new();
    assert_eq!(
        feed(&mut m, &[0x00, 0x00, 0x05]),
        vec![EventResult::Pending, EventResult::Pending, EventResult::CorruptPackage]
    );
    // the byte after the empty frame starts the next one
    assert_eq!(
        m.decode_chunk(&[0x00, 0x0d, 0x01, 0x00, 0x00, 0x00]),
        vec![Event::PingResponse { ping_id: 1 }]
    );
}

#[test]
fn out_of_range_enum_is_corrupt() {
    assert_eq!(decode_one(3, &[1, 0, 0, 0, 12]), EventResult::CorruptPackage);
    assert_eq!(
        decode_one(3, &[1, 0, 0, 0, 11]),
        EventResult::Decoded(Event::ConnectionChannelRemoved {
            conn_id: 1,
            removed_reason: RemovedReason::DeletedFromButton
        })
    );
}

#[test]
fn unknown_opcode_in_complete_frame_is_corrupt() {
    assert_eq!(
        ByteToEventMapper::read_event(vec![1, 0, 21]),
        Event::CorruptEvent
    );
    assert_eq!(ByteToEventMapper::read_event(vec![1, 0]), Event::CorruptEvent);
}

#[test]
fn advertisement_packet() {
    let mut p = vec![7, 0, 0, 0, 0x55, 0xfa, 0x76, 0xda, 0xe4, 0x80, 3, b'F', b'1', b'c'];
    p.extend_from_slice(&[200, 1, 0, 5, 0]);
    assert_eq!(
        decode_one(0, &p),
        EventResult::Decoded(Event::AdvertisementPacket {
            scan_id: 7,
            bd_addr: "80:e4:da:76:fa:55".to_string(),
            name: "F1c".to_string(),
            rssi: 200,
            is_private: true,
            already_verified: false,
            already_connected_to_this_device: true,
            already_connected_to_other_device: false,
        })
    );
    p.pop();
    assert_eq!(decode_one(0, &p), EventResult::CorruptPackage);
}

#[test]
fn connection_events() {
    assert_eq!(
        decode_one(1, &[2, 0, 0, 0, 1, 2]),
        EventResult::Decoded(Event::CreateConnectionChannelResponse {
            conn_id: 2,
            error: CreateConnectionChannelError::MaxPendingConnectionsReached,
            connection_status: ConnectionStatus::Ready,
        })
    );
    assert_eq!(decode_one(2, &[2, 0, 0, 0, 1, 4]), EventResult::CorruptPackage);
}

#[test]
fn button_events_share_one_shape() {
    let p = [5, 0, 0, 0, 3, 1, 0xff, 0xff, 0xff, 0xff];
    assert_eq!(
        decode_one(4, &p),
        EventResult::Decoded(Event::ButtonUpOrDown {
            conn_id: 5,
            click_type: ClickType::ButtonSingleClick,
            was_queued: true,
            time_diff: -1,
        })
    );
    assert_eq!(
        decode_one(7, &p),
        EventResult::Decoded(Event::ButtonSingleOrDoubleClickOrHold {
            conn_id: 5,
            click_type: ClickType::ButtonSingleClick,
            was_queued: true,
            time_diff: -1,
        })
    );
    assert_eq!(decode_one(5, &p[..9]), EventResult::CorruptPackage);
}

#[test]
fn get_info_response_with_verified_buttons() {
    let mut p = vec![2, 1, 2, 3, 4, 5, 6, 1, 4, 0xfe, 0xff, 1, 0, 2, 0];
    p.extend_from_slice(&[0x55, 0xfa, 0x76, 0xda, 0xe4, 0x80]);
    p.extend_from_slice(&[0, 0, 0, 0, 0, 0]);
    assert_eq!(
        decode_one(9, &p),
        EventResult::Decoded(Event::GetInfoResponse {
            bluetooth_controller_state: BluetoothControllerState::Attached,
            my_bd_addr: "06:05:04:03:02:01".to_string(),
            my_bd_addr_type: BdAddrType::RandomBdAddrType,
            max_pending_connections: 4,
            max_concurrently_connected_buttons: -2,
            current_pending_connections: 1,
            currently_no_space_for_new_connection: false,
            bd_addr_of_verified_buttons: vec![
                "80:e4:da:76:fa:55".to_string(),
                "00:00:00:00:00:00".to_string()
            ],
        })
    );
    p.pop();
    assert_eq!(decode_one(9, &p), EventResult::CorruptPackage);
}

#[test]
fn button_info_with_absent_identifier() {
    let mut p = vec![0x55, 0xfa, 0x76, 0xda, 0xe4, 0x80];
    p.extend_from_slice(&[0; 16]);
    p.extend_from_slice(&[5, b'b', b'l', b'a', b'c', b'k', 0]);
    assert_eq!(
        decode_one(14, &p),
        EventResult::Decoded(Event::GetButtonInfoResponse {
            bd_addr: "80:e4:da:76:fa:55".to_string(),
            uuid: String::new(),
            color: Some("black".to_string()),
            serial_number: Some(String::new()),
        })
    );
}

#[test]
fn button_info_with_missing_strings_is_corrupt() {
    let mut p = vec![1, 2, 3, 4, 5, 6];
    p.extend_from_slice(&[7; 16]);
    // no colour at all
    assert_eq!(decode_one(14, &p), EventResult::CorruptPackage);
    // colour length announces five bytes, none follow
    p.push(5);
    assert_eq!(decode_one(14, &p), EventResult::CorruptPackage);
    // colour complete, serial number missing
    p.extend_from_slice(b"black");
    assert_eq!(decode_one(14, &p), EventResult::CorruptPackage);
    // serial number length present but short
    p.extend_from_slice(&[3, b'S']);
    assert_eq!(decode_one(14, &p), EventResult::CorruptPackage);
}

#[test]
fn button_info_with_invalid_utf8_colour_leaves_it_absent() {
    let mut p = vec![1, 2, 3, 4, 5, 6];
    p.extend_from_slice(&[0; 16]);
    p.extend_from_slice(&[2, 0xc3, 0x28, 2, b'S', b'N']);
    assert_eq!(
        decode_one(14, &p),
        EventResult::Decoded(Event::GetButtonInfoResponse {
            bd_addr: "06:05:04:03:02:01".to_string(),
            uuid: String::new(),
            color: None,
            serial_number: Some("SN".to_string()),
        })
    );
}

#[test]
fn button_info_with_identifier_and_serial() {
    let mut p = vec![1, 2, 3, 4, 5, 6];
    let mut uuid = vec![0u8; 16];
    uuid[3] = 0xab;
    p.extend_from_slice(&uuid);
    p.extend_from_slice(&[0, 2, b'S', b'N']);
    assert_eq!(
        decode_one(14, &p),
        EventResult::Decoded(Event::GetButtonInfoResponse {
            bd_addr: "06:05:04:03:02:01".to_string(),
            uuid: "000000ab000000000000000000000000".to_string(),
            color: Some(String::new()),
            serial_number: Some("SN".to_string()),
        })
    );
}

#[test]
fn small_events() {
    assert_eq!(
        decode_one(8, &[1, 2, 3, 4, 5, 6]),
        EventResult::Decoded(Event::NewVerifiedButton { bd_addr: "06:05:04:03:02:01".to_string() })
    );
    assert_eq!(
        decode_one(10, &[3]),
        EventResult::Decoded(Event::NoSpaceForNewConnection { max_concurrently_connected_buttons: 3 })
    );
    assert_eq!(
        decode_one(11, &[4]),
        EventResult::Decoded(Event::GotSpaceForNewConnection { max_concurrently_connected_buttons: 4 })
    );
    assert_eq!(
        decode_one(12, &[1]),
        EventResult::Decoded(Event::BluetoothControllerStateChange {
            state: BluetoothControllerState::Resetting
        })
    );
    assert_eq!(decode_one(12, &[3]), EventResult::CorruptPackage);
    assert_eq!(
        decode_one(15, &[9, 0, 0, 0]),
        EventResult::Decoded(Event::ScanWizardFoundPrivateButton { scan_wizard_id: 9 })
    );
    assert_eq!(
        decode_one(16, &[9, 0, 0, 0, 1, 2, 3, 4, 5, 6, 1, b'x']),
        EventResult::Decoded(Event::ScanWizardFoundPublicButton {
            scan_wizard_id: 9,
            bd_addr: "06:05:04:03:02:01".to_string(),
            name: "x".to_string(),
        })
    );
    assert_eq!(
        decode_one(17, &[9, 0, 0, 0]),
        EventResult::Decoded(Event::ScanWizardButtonConnected { scan_wizard_id: 9 })
    );
    assert_eq!(
        decode_one(18, &[9, 0, 0, 0, 8]),
        EventResult::Decoded(Event::ScanWizardCompleted {
            scan_wizard_id: 9,
            result: ScanWizardResult::WizardButtonAlreadyConnectedToOtherDevice,
        })
    );
    assert_eq!(
        decode_one(19, &[1, 2, 3, 4, 5, 6, 0]),
        EventResult::Decoded(Event::ButtonDeleted {
            bd_addr: "06:05:04:03:02:01".to_string(),
            deleted_by_this_client: false,
        })
    );
}

#[test]
fn battery_status() {
    assert_eq!(
        decode_one(20, &[1, 0, 0, 0, 0xff, 1, 2, 3, 4, 5, 6, 7, 0x80]),
        EventResult::Decoded(Event::BatteryStatus {
            listener_id: 1,
            battery_percentage: -1,
            timestamp: 0x8007060504030201,
        })
    );
    assert_eq!(decode_one(20, &[1, 0, 0, 0, 50, 1, 2, 3]), EventResult::CorruptPackage);
}

#[test]
fn chunk_yields_events_in_arrival_order() {
    let mut chunk = frame(13, &[1, 0, 0, 0]);
    chunk.extend(frame(3, &[1, 0, 0, 0, 99]));
    chunk.extend(frame(11, &[2]));
    chunk.extend(frame(13, &[2, 0]));
    let mut m = ByteToEventMapper::new();
    let (first, second) = chunk.split_at(5);
    let mut events = m.decode_chunk(first);
    events.extend(m.decode_chunk(second));
    assert_eq!(
        events,
        vec![
            Event::PingResponse { ping_id: 1 },
            Event::GotSpaceForNewConnection { max_concurrently_connected_buttons: 2 },
        ]
    );
}

#[test]
fn event_opcodes() {
    assert_eq!(Event::CorruptEvent.opcode(), 255);
    assert_eq!(Event::NoOp.opcode(), 255);
    assert_eq!(Event::AdvertisementPacket {
        scan_id: 0,
        bd_addr: String::new(),
        name: String::new(),
        rssi: 0,
        is_private: false,
        already_verified: false,
        already_connected_to_this_device: false,
        already_connected_to_other_device: false,
    }.opcode(), 0);
    assert_eq!(Event::PingResponse { ping_id: 0 }.opcode(), 13);
    assert_eq!(Event::BatteryStatus { listener_id: 0, battery_percentage: 0, timestamp: 0 }.opcode(), 20);
    assert_eq!(OpCode::from_u8(13), Some(OpCode::PingResponse));
    assert_eq!(OpCode::from_u8(20), Some(OpCode::BatteryStatus));
    assert_eq!(OpCode::from_u8(21), None);
}

#[test]
fn handlers_fan_out_per_event_in_registration_order() {
    let mut m = ByteToEventMapper::new();
    let mut chunk = frame(13, &[1, 0, 0, 0]);
    chunk.extend(frame(13, &[2, 0, 0, 0]));
    chunk.extend(frame(13, &[3, 0, 0, 0]));
    let events = m.decode_chunk(&chunk);
    let mut log = Vec::new();
    for (e, h) in dispatch_order(events.len(), 2) {
        if let Event::PingResponse { ping_id } = events[e] {
            log.push((h, ping_id));
        }
    }
    assert_eq!(log, vec![(0, 1), (1, 1), (0, 2), (1, 2), (0, 3), (1, 3)]);
    assert_eq!(dispatch_order(0, 2), vec![]);
    assert_eq!(dispatch_order(2, 0), vec![]);
}

#[test]
fn enum_bytes_round_trip() {
    assert_eq!(ClickType::from_u8(5), Some(ClickType::ButtonHold));
    assert_eq!(ClickType::from_u8(6), None);
    assert_eq!(ClickType::ButtonHold.to_u8(), 5);
    assert_eq!(RemovedReason::from_u8(0), Some(RemovedReason::RemovedByThisClient));
    assert_eq!(ScanWizardResult::WizardSuccess.to_u8(), 0);
}

#[test]
fn frame_of_the_largest_size_still_decodes() {
    let mut payload = vec![1, 0, 0, 0];
    payload.resize(MAX_BUFFERED - 3, 0x42);
    let f = frame(13, &payload);
    assert_eq!(f.len(), MAX_BUFFERED);
    let mut m = ByteToEventMapper::new();
    let results = feed(&mut m, &f);
    assert!(results[..MAX_BUFFERED - 1].iter().all(|r| *r == EventResult::Pending));
    assert_eq!(
        results[MAX_BUFFERED - 1],
        EventResult::Decoded(Event::PingResponse { ping_id: 1 })
    );
    assert_eq!(m.decode_chunk(&PING), vec![Event::PingResponse { ping_id: 1 }]);
}

//! Events sent by the daemon: their shapes, opcodes, and what a frame
//! decodes to.

use vstd::prelude::*;

use crate::codec::{
    address_text, identifier_text, le_u16, le_u32, le_u64, string_at, string_end, string_present,
    text_of,
    FieldReader,
};
use crate::enums::{
    BdAddrType, BluetoothControllerState, ClickType, ConnectionStatus,
    CreateConnectionChannelError, DisconnectReason, RemovedReason, ScanWizardResult,
};

verus! {

/// The opcode byte of each event shape.
#[derive(Debug, PartialEq, Eq, Hash, Clone, Copy, Structural)]
pub enum OpCode {
    AdvertisementPacket,
    CreateConnectionChannelResponse,
    ConnectionStatusChanged,
    ConnectionChannelRemoved,
    ButtonUpOrDown,
    ButtonClickOrHold,
    ButtonSingleOrDoubleClick,
    ButtonSingleOrDoubleClickOrHold,
    NewVerifiedButton,
    GetInfoResponse,
    NoSpaceForNewConnection,
    GotSpaceForNewConnection,
    BluetoothControllerStateChange,
    PingResponse,
    GetButtonInfoResponse,
    ScanWizardFoundPrivateButton,
    ScanWizardFoundPublicButton,
    ScanWizardButtonConnected,
    ScanWizardCompleted,
    ButtonDeleted,
    BatteryStatus,
}

impl OpCode {
    /// The opcode that byte `b` names, if any.
    pub open spec fn spec_from_u8(b: u8) -> Option<OpCode> {
        if b == 0 {
            Some(OpCode::AdvertisementPacket)
        } else if b == 1 {
            Some(OpCode::CreateConnectionChannelResponse)
        } else if b == 2 {
            Some(OpCode::ConnectionStatusChanged)
        } else if b == 3 {
            Some(OpCode::ConnectionChannelRemoved)
        } else if b == 4 {
            Some(OpCode::ButtonUpOrDown)
        } else if b == 5 {
            Some(OpCode::ButtonClickOrHold)
        } else if b == 6 {
            Some(OpCode::ButtonSingleOrDoubleClick)
        } else if b == 7 {
            Some(OpCode::ButtonSingleOrDoubleClickOrHold)
        } else if b == 8 {
            Some(OpCode::NewVerifiedButton)
        } else if b == 9 {
            Some(OpCode::GetInfoResponse)
        } else if b == 10 {
            Some(OpCode::NoSpaceForNewConnection)
        } else if b == 11 {
            Some(OpCode::GotSpaceForNewConnection)
        } else if b == 12 {
            Some(OpCode::BluetoothControllerStateChange)
        } else if b == 13 {
            Some(OpCode::PingResponse)
        } else if b == 14 {
            Some(OpCode::GetButtonInfoResponse)
        } else if b == 15 {
            Some(OpCode::ScanWizardFoundPrivateButton)
        } else if b == 16 {
            Some(OpCode::ScanWizardFoundPublicButton)
        } else if b == 17 {
            Some(OpCode::ScanWizardButtonConnected)
        } else if b == 18 {
            Some(OpCode::ScanWizardCompleted)
        } else if b == 19 {
            Some(OpCode::ButtonDeleted)
        } else if b == 20 {
            Some(OpCode::BatteryStatus)
        } else {
            None
        }
    }

    /// Reads an opcode from its byte; `None` for a byte that names no event.
    pub fn from_u8(b: u8) -> (r: Option<OpCode>)
        ensures
            r == Self::spec_from_u8(b),
            r is Some <==> b <= 20,
    {
        if b == 0 {
            Some(OpCode::AdvertisementPacket)
        } else if b == 1 {
            Some(OpCode::CreateConnectionChannelResponse)
        } else if b == 2 {
            Some(OpCode::ConnectionStatusChanged)
        } else if b == 3 {
            Some(OpCode::ConnectionChannelRemoved)
        } else if b == 4 {
            Some(OpCode::ButtonUpOrDown)
        } else if b == 5 {
            Some(OpCode::ButtonClickOrHold)
        } else if b == 6 {
            Some(OpCode::ButtonSingleOrDoubleClick)
        } else if b == 7 {
            Some(OpCode::ButtonSingleOrDoubleClickOrHold)
        } else if b == 8 {
            Some(OpCode::NewVerifiedButton)
        } else if b == 9 {
            Some(OpCode::GetInfoResponse)
        } else if b == 10 {
            Some(OpCode::NoSpaceForNewConnection)
        } else if b == 11 {
            Some(OpCode::GotSpaceForNewConnection)
        } else if b == 12 {
            Some(OpCode::BluetoothControllerStateChange)
        } else if b == 13 {
            Some(OpCode::PingResponse)
        } else if b == 14 {
            Some(OpCode::GetButtonInfoResponse)
        } else if b == 15 {
            Some(OpCode::ScanWizardFoundPrivateButton)
        } else if b == 16 {
            Some(OpCode::ScanWizardFoundPublicButton)
        } else if b == 17 {
            Some(OpCode::ScanWizardButtonConnected)
        } else if b == 18 {
            Some(OpCode::ScanWizardCompleted)
        } else if b == 19 {
            Some(OpCode::ButtonDeleted)
        } else if b == 20 {
            Some(OpCode::BatteryStatus)
        } else {
            None
        }
    }
}

/// An event received from the daemon.
///
/// `NoOp` ("no event yet") and `CorruptEvent` carry nothing; every other
/// variant is the decoded payload of one frame.
#[derive(Debug, PartialEq, Eq, Clone)]
pub enum Event {
    NoOp,
    CorruptEvent,
    AdvertisementPacket {
        scan_id: u32,
        bd_addr: String,
        name: String,
        rssi: u8,
        is_private: bool,
        already_verified: bool,
        already_connected_to_this_device: bool,
        already_connected_to_other_device: bool,
    },
    CreateConnectionChannelResponse {
        conn_id: u32,
        error: CreateConnectionChannelError,
        connection_status: ConnectionStatus,
    },
    ConnectionStatusChanged {
        conn_id: u32,
        connection_status: ConnectionStatus,
        disconnect_reason: DisconnectReason,
    },
    ConnectionChannelRemoved {
        conn_id: u32,
        removed_reason: RemovedReason,
    },
    ButtonUpOrDown {
        conn_id: u32,
        click_type: ClickType,
        was_queued: bool,
        time_diff: i32,
    },
    ButtonClickOrHold {
        conn_id: u32,
        click_type: ClickType,
        was_queued: bool,
        time_diff: i32,
    },
    ButtonSingleOrDoubleClick {
        conn_id: u32,
        click_type: ClickType,
        was_queued: bool,
        time_diff: i32,
    },
    ButtonSingleOrDoubleClickOrHold {
        conn_id: u32,
        click_type: ClickType,
        was_queued: bool,
        time_diff: i32,
    },
    NewVerifiedButton {
        bd_addr: String,
    },
    GetInfoResponse {
        bluetooth_controller_state: BluetoothControllerState,
        my_bd_addr: String,
        my_bd_addr_type: BdAddrType,
        max_pending_connections: u8,
        max_concurrently_connected_buttons: i16,
        current_pending_connections: u8,
        currently_no_space_for_new_connection: bool,
        bd_addr_of_verified_buttons: Vec<String>,
    },
    NoSpaceForNewConnection {
        max_concurrently_connected_buttons: u8,
    },
    GotSpaceForNewConnection {
        max_concurrently_connected_buttons: u8,
    },
    BluetoothControllerStateChange {
        state: BluetoothControllerState,
    },
    PingResponse {
        ping_id: u32,
    },
    GetButtonInfoResponse {
        bd_addr: String,
        uuid: String,
        color: Option<String>,
        serial_number: Option<String>,
    },
    ScanWizardFoundPrivateButton {
        scan_wizard_id: u32,
    },
    ScanWizardFoundPublicButton {
        scan_wizard_id: u32,
        bd_addr: String,
        name: String,
    },
    ScanWizardButtonConnected {
        scan_wizard_id: u32,
    },
    ScanWizardCompleted {
        scan_wizard_id: u32,
        result: ScanWizardResult,
    },
    ButtonDeleted {
        bd_addr: String,
        deleted_by_this_client: bool,
    },
    BatteryStatus {
        listener_id: u32,
        battery_percentage: i8,
        timestamp: u64,
    },
}

/// The mathematical value of an `Event`: strings as character sequences.
pub enum EventView {
    NoOp,
    CorruptEvent,
    AdvertisementPacket {
        scan_id: u32,
        bd_addr: Seq<char>,
        name: Seq<char>,
        rssi: u8,
        is_private: bool,
        already_verified: bool,
        already_connected_to_this_device: bool,
        already_connected_to_other_device: bool,
    },
    CreateConnectionChannelResponse {
        conn_id: u32,
        error: CreateConnectionChannelError,
        connection_status: ConnectionStatus,
    },
    ConnectionStatusChanged {
        conn_id: u32,
        connection_status: ConnectionStatus,
        disconnect_reason: DisconnectReason,
    },
    ConnectionChannelRemoved {
        conn_id: u32,
        removed_reason: RemovedReason,
    },
    ButtonUpOrDown {
        conn_id: u32,
        click_type: ClickType,
        was_queued: bool,
        time_diff: i32,
    },
    ButtonClickOrHold {
        conn_id: u32,
        click_type: ClickType,
        was_queued: bool,
        time_diff: i32,
    },
    ButtonSingleOrDoubleClick {
        conn_id: u32,
        click_type: ClickType,
        was_queued: bool,
        time_diff: i32,
    },
    ButtonSingleOrDoubleClickOrHold {
        conn_id: u32,
        click_type: ClickType,
        was_queued: bool,
        time_diff: i32,
    },
    NewVerifiedButton {
        bd_addr: Seq<char>,
    },
    GetInfoResponse {
        bluetooth_controller_state: BluetoothControllerState,
        my_bd_addr: Seq<char>,
        my_bd_addr_type: BdAddrType,
        max_pending_connections: u8,
        max_concurrently_connected_buttons: i16,
        current_pending_connections: u8,
        currently_no_space_for_new_connection: bool,
        bd_addr_of_verified_buttons: Seq<Seq<char>>,
    },
    NoSpaceForNewConnection {
        max_concurrently_connected_buttons: u8,
    },
    GotSpaceForNewConnection {
        max_concurrently_connected_buttons: u8,
    },
    BluetoothControllerStateChange {
        state: BluetoothControllerState,
    },
    PingResponse {
        ping_id: u32,
    },
    GetButtonInfoResponse {
        bd_addr: Seq<char>,
        uuid: Seq<char>,
        color: Option<Seq<char>>,
        serial_number: Option<Seq<char>>,
    },
    ScanWizardFoundPrivateButton {
        scan_wizard_id: u32,
    },
    ScanWizardFoundPublicButton {
        scan_wizard_id: u32,
        bd_addr: Seq<char>,
        name: Seq<char>,
    },
    ScanWizardButtonConnected {
        scan_wizard_id: u32,
    },
    ScanWizardCompleted {
        scan_wizard_id: u32,
        result: ScanWizardResult,
    },
    ButtonDeleted {
        bd_addr: Seq<char>,
        deleted_by_this_client: bool,
    },
    BatteryStatus {
        listener_id: u32,
        battery_percentage: i8,
        timestamp: u64,
    },
}

impl View for Event {
    type V = EventView;

    open spec fn view(&self) -> EventView {
        match self {
            Event::NoOp => EventView::NoOp,
            Event::CorruptEvent => EventView::CorruptEvent,
            Event::AdvertisementPacket {
                scan_id,
                bd_addr,
                name,
                rssi,
                is_private,
                already_verified,
                already_connected_to_this_device,
                already_connected_to_other_device,
            } => EventView::AdvertisementPacket {
                scan_id: *scan_id,
                bd_addr: bd_addr@,
                name: name@,
                rssi: *rssi,
                is_private: *is_private,
                already_verified: *already_verified,
                already_connected_to_this_device: *already_connected_to_this_device,
                already_connected_to_other_device: *already_connected_to_other_device,
            },
            Event::CreateConnectionChannelResponse {
                conn_id,
                error,
                connection_status,
            } => EventView::CreateConnectionChannelResponse {
                conn_id: *conn_id,
                error: *error,
                connection_status: *connection_status,
            },
            Event::ConnectionStatusChanged {
                conn_id,
                connection_status,
                disconnect_reason,
            } => EventView::ConnectionStatusChanged {
                conn_id: *conn_id,
                connection_status: *connection_status,
                disconnect_reason: *disconnect_reason,
            },
            Event::ConnectionChannelRemoved {
                conn_id,
                removed_reason,
            } => EventView::ConnectionChannelRemoved {
                conn_id: *conn_id,
                removed_reason: *removed_reason,
            },
            Event::ButtonUpOrDown {
                conn_id,
                click_type,
                was_queued,
                time_diff,
            } => EventView::ButtonUpOrDown {
                conn_id: *conn_id,
                click_type: *click_type,
                was_queued: *was_queued,
                time_diff: *time_diff,
            },
            Event::ButtonClickOrHold {
                conn_id,
                click_type,
                was_queued,
                time_diff,
            } => EventView::ButtonClickOrHold {
                conn_id: *conn_id,
                click_type: *click_type,
                was_queued: *was_queued,
                time_diff: *time_diff,
            },
            Event::ButtonSingleOrDoubleClick {
                conn_id,
                click_type,
                was_queued,
                time_diff,
            } => EventView::ButtonSingleOrDoubleClick {
                conn_id: *conn_id,
                click_type: *click_type,
                was_queued: *was_queued,
                time_diff: *time_diff,
            },
            Event::ButtonSingleOrDoubleClickOrHold {
                conn_id,
                click_type,
                was_queued,
                time_diff,
            } => EventView::ButtonSingleOrDoubleClickOrHold {
                conn_id: *conn_id,
                click_type: *click_type,
                was_queued: *was_queued,
                time_diff: *time_diff,
            },
            Event::NewVerifiedButton { bd_addr } => EventView::NewVerifiedButton {
                bd_addr: bd_addr@,
            },
            Event::GetInfoResponse {
                bluetooth_controller_state,
                my_bd_addr,
                my_bd_addr_type,
                max_pending_connections,
                max_concurrently_connected_buttons,
                current_pending_connections,
                currently_no_space_for_new_connection,
                bd_addr_of_verified_buttons,
            } => EventView::GetInfoResponse {
                bluetooth_controller_state: *bluetooth_controller_state,
                my_bd_addr: my_bd_addr@,
                my_bd_addr_type: *my_bd_addr_type,
                max_pending_connections: *max_pending_connections,
                max_concurrently_connected_buttons: *max_concurrently_connected_buttons,
                current_pending_connections: *current_pending_connections,
                currently_no_space_for_new_connection: *currently_no_space_for_new_connection,
                bd_addr_of_verified_buttons: bd_addr_of_verified_buttons@.map_values(|s: String| s@),
            },
            Event::NoSpaceForNewConnection {
                max_concurrently_connected_buttons,
            } => EventView::NoSpaceForNewConnection {
                max_concurrently_connected_buttons: *max_concurrently_connected_buttons,
            },
            Event::GotSpaceForNewConnection {
                max_concurrently_connected_buttons,
            } => EventView::GotSpaceForNewConnection {
                max_concurrently_connected_buttons: *max_concurrently_connected_buttons,
            },
            Event::BluetoothControllerStateChange {
                state,
            } => EventView::BluetoothControllerStateChange {
                state: *state,
            },
            Event::PingResponse { ping_id } => EventView::PingResponse {
                ping_id: *ping_id,
            },
            Event::GetButtonInfoResponse {
                bd_addr,
                uuid,
                color,
                serial_number,
            } => EventView::GetButtonInfoResponse {
                bd_addr: bd_addr@,
                uuid: uuid@,
                color: text_of(*color),
                serial_number: text_of(*serial_number),
            },
            Event::ScanWizardFoundPrivateButton {
                scan_wizard_id,
            } => EventView::ScanWizardFoundPrivateButton {
                scan_wizard_id: *scan_wizard_id,
            },
            Event::ScanWizardFoundPublicButton {
                scan_wizard_id,
                bd_addr,
                name,
            } => EventView::ScanWizardFoundPublicButton {
                scan_wizard_id: *scan_wizard_id,
                bd_addr: bd_addr@,
                name: name@,
            },
            Event::ScanWizardButtonConnected {
                scan_wizard_id,
            } => EventView::ScanWizardButtonConnected {
                scan_wizard_id: *scan_wizard_id,
            },
            Event::ScanWizardCompleted {
                scan_wizard_id,
                result,
            } => EventView::ScanWizardCompleted {
                scan_wizard_id: *scan_wizard_id,
                result: *result,
            },
            Event::ButtonDeleted { bd_addr, deleted_by_this_client } => EventView::ButtonDeleted {
                bd_addr: bd_addr@,
                deleted_by_this_client: *deleted_by_this_client,
            },
            Event::BatteryStatus {
                listener_id,
                battery_percentage,
                timestamp,
            } => EventView::BatteryStatus {
                listener_id: *listener_id,
                battery_percentage: *battery_percentage,
                timestamp: *timestamp,
            },
        }
    }
}

impl Event {
    /// The opcode of the event's shape; 255 for the two sentinels.
    pub open spec fn spec_opcode(&self) -> u8 {
        match self {
            Event::NoOp => 255,
            Event::CorruptEvent => 255,
            Event::AdvertisementPacket { .. } => 0,
            Event::CreateConnectionChannelResponse { .. } => 1,
            Event::ConnectionStatusChanged { .. } => 2,
            Event::ConnectionChannelRemoved { .. } => 3,
            Event::ButtonUpOrDown { .. } => 4,
            Event::ButtonClickOrHold { .. } => 5,
            Event::ButtonSingleOrDoubleClick { .. } => 6,
            Event::ButtonSingleOrDoubleClickOrHold { .. } => 7,
            Event::NewVerifiedButton { .. } => 8,
            Event::GetInfoResponse { .. } => 9,
            Event::NoSpaceForNewConnection { .. } => 10,
            Event::GotSpaceForNewConnection { .. } => 11,
            Event::BluetoothControllerStateChange { .. } => 12,
            Event::PingResponse { .. } => 13,
            Event::GetButtonInfoResponse { .. } => 14,
            Event::ScanWizardFoundPrivateButton { .. } => 15,
            Event::ScanWizardFoundPublicButton { .. } => 16,
            Event::ScanWizardButtonConnected { .. } => 17,
            Event::ScanWizardCompleted { .. } => 18,
            Event::ButtonDeleted { .. } => 19,
            Event::BatteryStatus { .. } => 20,
        }
    }

    /// The opcode of the event's shape; 255 for the two sentinels.
    pub fn opcode(&self) -> (r: u8)
        ensures
            r == self.spec_opcode(),
    {
        match self {
            Event::NoOp => 255,
            Event::CorruptEvent => 255,
            Event::AdvertisementPacket { .. } => 0,
            Event::CreateConnectionChannelResponse { .. } => 1,
            Event::ConnectionStatusChanged { .. } => 2,
            Event::ConnectionChannelRemoved { .. } => 3,
            Event::ButtonUpOrDown { .. } => 4,
            Event::ButtonClickOrHold { .. } => 5,
            Event::ButtonSingleOrDoubleClick { .. } => 6,
            Event::ButtonSingleOrDoubleClickOrHold { .. } => 7,
            Event::NewVerifiedButton { .. } => 8,
            Event::GetInfoResponse { .. } => 9,
            Event::NoSpaceForNewConnection { .. } => 10,
            Event::GotSpaceForNewConnection { .. } => 11,
            Event::BluetoothControllerStateChange { .. } => 12,
            Event::PingResponse { .. } => 13,
            Event::GetButtonInfoResponse { .. } => 14,
            Event::ScanWizardFoundPrivateButton { .. } => 15,
            Event::ScanWizardFoundPublicButton { .. } => 16,
            Event::ScanWizardButtonConnected { .. } => 17,
            Event::ScanWizardCompleted { .. } => 18,
            Event::ButtonDeleted { .. } => 19,
            Event::BatteryStatus { .. } => 20,
        }
    }
}

/// The address field whose six wire octets start at `i`.
pub open spec fn address_at(p: Seq<u8>, i: int) -> Seq<char> {
    address_text(p.subrange(i, i + 6))
}

/// What an identifier field at `i` shows: its hex digits, or the empty text
/// when it is absent.
pub open spec fn identifier_at(p: Seq<u8>, i: int) -> Seq<char> {
    match identifier_text(p.subrange(i, i + 16)) {
        Some(t) => t,
        None => Seq::empty(),
    }
}

/// The payload of an advertisement: scan id, address, name, signal
/// strength and four flags.
pub open spec fn decode_advertisement(p: Seq<u8>) -> EventView {
    let e = string_end(p, 10);
    if p.len() >= 10 && string_at(p, 10) is Some && e + 5 <= p.len() {
        EventView::AdvertisementPacket {
            scan_id: le_u32(p, 0) as u32,
            bd_addr: address_at(p, 4),
            name: string_at(p, 10)->0,
            rssi: p[e],
            is_private: p[e + 1] != 0,
            already_verified: p[e + 2] != 0,
            already_connected_to_this_device: p[e + 3] != 0,
            already_connected_to_other_device: p[e + 4] != 0,
        }
    } else {
        EventView::CorruptEvent
    }
}

/// The payload of the four button events of opcodes 4 to 7: connection id,
/// click type, a queued flag and a signed time difference.
pub open spec fn decode_button(op: u8, p: Seq<u8>) -> EventView {
    if p.len() >= 10 && ClickType::spec_from_u8(p[4]) is Some {
        let conn_id = le_u32(p, 0) as u32;
        let click_type = ClickType::spec_from_u8(p[4])->0;
        let was_queued = p[5] != 0;
        let time_diff = (le_u32(p, 6) as u32) as i32;
        if op == 4 {
            EventView::ButtonUpOrDown { conn_id, click_type, was_queued, time_diff }
        } else if op == 5 {
            EventView::ButtonClickOrHold { conn_id, click_type, was_queued, time_diff }
        } else if op == 6 {
            EventView::ButtonSingleOrDoubleClick { conn_id, click_type, was_queued, time_diff }
        } else {
            EventView::ButtonSingleOrDoubleClickOrHold {
                conn_id,
                click_type,
                was_queued,
                time_diff,
            }
        }
    } else {
        EventView::CorruptEvent
    }
}

/// The payload of a daemon info response: controller state, own address
/// and its type, three counters, a flag, then a 16-bit count of verified
/// button addresses followed by those addresses.
pub open spec fn decode_info(p: Seq<u8>) -> EventView {
    if p.len() >= 15 && p.len() >= 15 + 6 * le_u16(p, 13)
        && BluetoothControllerState::spec_from_u8(p[0]) is Some
        && BdAddrType::spec_from_u8(p[7]) is Some {
        EventView::GetInfoResponse {
            bluetooth_controller_state: BluetoothControllerState::spec_from_u8(p[0])->0,
            my_bd_addr: address_at(p, 1),
            my_bd_addr_type: BdAddrType::spec_from_u8(p[7])->0,
            max_pending_connections: p[8],
            max_concurrently_connected_buttons: (le_u16(p, 9) as u16) as i16,
            current_pending_connections: p[11],
            currently_no_space_for_new_connection: p[12] != 0,
            bd_addr_of_verified_buttons: Seq::new(
                le_u16(p, 13) as nat,
                |k: int| address_at(p, 15 + 6 * k),
            ),
        }
    } else {
        EventView::CorruptEvent
    }
}

/// The payload of a button info response: address, identifier, then two
/// strings (colour, serial number). Both strings must be all there; either
/// is absent when its bytes are not valid UTF-8.
pub open spec fn decode_button_info(p: Seq<u8>) -> EventView {
    if p.len() >= 22 && string_present(p, 22) && string_present(p, string_end(p, 22)) {
        EventView::GetButtonInfoResponse {
            bd_addr: address_at(p, 0),
            uuid: identifier_at(p, 6),
            color: string_at(p, 22),
            serial_number: string_at(p, string_end(p, 22)),
        }
    } else {
        EventView::CorruptEvent
    }
}

/// What the payload `p` of a frame with opcode `op` decodes to: the
/// opcode's fields in order, or `CorruptEvent` when the payload is too short
/// for them, a name string is not valid UTF-8, an enumerated byte is out of its
/// set, or the opcode is unknown. Bytes after the last field are ignored.
#[verifier::opaque]
pub open spec fn decode_payload(op: u8, p: Seq<u8>) -> EventView {
    if op == 0 {
        decode_advertisement(p)
    } else if op == 1 {
        if p.len() >= 6 && CreateConnectionChannelError::spec_from_u8(p[4]) is Some
            && ConnectionStatus::spec_from_u8(p[5]) is Some {
            EventView::CreateConnectionChannelResponse {
                conn_id: le_u32(p, 0) as u32,
                error: CreateConnectionChannelError::spec_from_u8(p[4])->0,
                connection_status: ConnectionStatus::spec_from_u8(p[5])->0,
            }
        } else {
            EventView::CorruptEvent
        }
    } else if op == 2 {
        if p.len() >= 6 && ConnectionStatus::spec_from_u8(p[4]) is Some
            && DisconnectReason::spec_from_u8(p[5]) is Some {
            EventView::ConnectionStatusChanged {
                conn_id: le_u32(p, 0) as u32,
                connection_status: ConnectionStatus::spec_from_u8(p[4])->0,
                disconnect_reason: DisconnectReason::spec_from_u8(p[5])->0,
            }
        } else {
            EventView::CorruptEvent
        }
    } else if op == 3 {
        if p.len() >= 5 && RemovedReason::spec_from_u8(p[4]) is Some {
            EventView::ConnectionChannelRemoved {
                conn_id: le_u32(p, 0) as u32,
                removed_reason: RemovedReason::spec_from_u8(p[4])->0,
            }
        } else {
            EventView::CorruptEvent
        }
    } else if 4 <= op <= 7 {
        decode_button(op, p)
    } else if op == 8 {
        if p.len() >= 6 {
            EventView::NewVerifiedButton { bd_addr: address_at(p, 0) }
        } else {
            EventView::CorruptEvent
        }
    } else if op == 9 {
        decode_info(p)
    } else if op == 10 {
        if p.len() >= 1 {
            EventView::NoSpaceForNewConnection { max_concurrently_connected_buttons: p[0] }
        } else {
            EventView::CorruptEvent
        }
    } else if op == 11 {
        if p.len() >= 1 {
            EventView::GotSpaceForNewConnection { max_concurrently_connected_buttons: p[0] }
        } else {
            EventView::CorruptEvent
        }
    } else if op == 12 {
        if p.len() >= 1 && BluetoothControllerState::spec_from_u8(p[0]) is Some {
            EventView::BluetoothControllerStateChange {
                state: BluetoothControllerState::spec_from_u8(p[0])->0,
            }
        } else {
            EventView::CorruptEvent
        }
    } else if op == 13 {
        if p.len() >= 4 {
            EventView::PingResponse { ping_id: le_u32(p, 0) as u32 }
        } else {
            EventView::CorruptEvent
        }
    } else if op == 14 {
        decode_button_info(p)
    } else if op == 15 {
        if p.len() >= 4 {
            EventView::ScanWizardFoundPrivateButton { scan_wizard_id: le_u32(p, 0) as u32 }
        } else {
            EventView::CorruptEvent
        }
    } else if op == 16 {
        if p.len() >= 10 && string_at(p, 10) is Some {
            EventView::ScanWizardFoundPublicButton {
                scan_wizard_id: le_u32(p, 0) as u32,
                bd_addr: address_at(p, 4),
                name: string_at(p, 10)->0,
            }
        } else {
            EventView::CorruptEvent
        }
    } else if op == 17 {
        if p.len() >= 4 {
            EventView::ScanWizardButtonConnected { scan_wizard_id: le_u32(p, 0) as u32 }
        } else {
            EventView::CorruptEvent
        }
    } else if op == 18 {
        if p.len() >= 5 && ScanWizardResult::spec_from_u8(p[4]) is Some {
            EventView::ScanWizardCompleted {
                scan_wizard_id: le_u32(p, 0) as u32,
                result: ScanWizardResult::spec_from_u8(p[4])->0,
            }
        } else {
            EventView::CorruptEvent
        }
    } else if op == 19 {
        if p.len() >= 7 {
            EventView::ButtonDeleted {
                bd_addr: address_at(p, 0),
                deleted_by_this_client: p[6] != 0,
            }
        } else {
            EventView::CorruptEvent
        }
    } else if op == 20 {
        if p.len() >= 13 {
            EventView::BatteryStatus {
                listener_id: le_u32(p, 0) as u32,
                battery_percentage: p[4] as i8,
                timestamp: le_u64(p, 5) as u64,
            }
        } else {
            EventView::CorruptEvent
        }
    } else {
        EventView::CorruptEvent
    }
}

/// What a whole frame decodes to: its payload after the two length bytes
/// and the opcode byte, decoded by that opcode. A frame too short to hold
/// an opcode is corrupt.
pub open spec fn decode_frame(f: Seq<u8>) -> EventView {
    if f.len() < 3 {
        EventView::CorruptEvent
    } else {
        decode_payload(f[2], f.subrange(3, f.len() as int))
    }
}

// ----- reading payloads -----

/// Reads an advertisement payload.
pub(crate) fn read_advertisement(r: &mut FieldReader) -> (e: Event)
    requires
        old(r).wf(),
        old(r).pos() == 0,
    ensures
        e@ == decode_advertisement(old(r).bytes()),
{
    match (
        r.read_u32(),
        r.read_bdaddr(),
        r.read_string(),
        r.read_u8(),
        r.read_bool(),
        r.read_bool(),
        r.read_bool(),
        r.read_bool(),
    ) {
        (
            Some(scan_id),
            Some(bd_addr),
            Some(name),
            Some(rssi),
            Some(is_private),
            Some(already_verified),
            Some(already_connected_to_this_device),
            Some(already_connected_to_other_device),
        ) => {
            Event::AdvertisementPacket {
                scan_id,
                bd_addr,
                name,
                rssi,
                is_private,
                already_verified,
                already_connected_to_this_device,
                already_connected_to_other_device,
            }
        },
        _ => Event::CorruptEvent,
    }
}


/// Reads the payload of one of the four button events; `op` picks which.
pub(crate) fn read_button(op: OpCode, r: &mut FieldReader) -> (e: Event)
    requires
        old(r).wf(),
        old(r).pos() == 0,
        op == OpCode::ButtonUpOrDown || op == OpCode::ButtonClickOrHold
            || op == OpCode::ButtonSingleOrDoubleClick
            || op == OpCode::ButtonSingleOrDoubleClickOrHold,
    ensures
        e@ == decode_button(
            match op {
                OpCode::ButtonUpOrDown => 4u8,
                OpCode::ButtonClickOrHold => 5u8,
                OpCode::ButtonSingleOrDoubleClick => 6u8,
                _ => 7u8,
            },
            old(r).bytes(),
        ),
{
    match (r.read_u32(), r.read_u8(), r.read_bool(), r.read_i32()) {
        (Some(conn_id), Some(click_type), Some(was_queued), Some(time_diff)) => {
            match ClickType::from_u8(click_type) {
                Some(click_type) => match op {
                    OpCode::ButtonUpOrDown => Event::ButtonUpOrDown {
                        conn_id,
                        click_type,
                        was_queued,
                        time_diff,
                    },
                    OpCode::ButtonClickOrHold => Event::ButtonClickOrHold {
                        conn_id,
                        click_type,
                        was_queued,
                        time_diff,
                    },
                    OpCode::ButtonSingleOrDoubleClick => Event::ButtonSingleOrDoubleClick {
                        conn_id,
                        click_type,
                        was_queued,
                        time_diff,
                    },
                    _ => Event::ButtonSingleOrDoubleClickOrHold {
                        conn_id,
                        click_type,
                        was_queued,
                        time_diff,
                    },
                },
                None => Event::CorruptEvent,
            }
        },
        _ => Event::CorruptEvent,
    }
}

/// Reads the payload of a daemon info response, with its list of verified
/// button addresses.
pub(crate) fn read_info(r: &mut FieldReader) -> (e: Event)
    requires
        old(r).wf(),
        old(r).pos() == 0,
    ensures
        e@ == decode_info(old(r).bytes()),
{
    let ghost p = r.bytes();
    match (
        r.read_u8(),
        r.read_bdaddr(),
        r.read_u8(),
        r.read_u8(),
        r.read_i16(),
        r.read_u8(),
        r.read_bool(),
        r.read_u16(),
    ) {
        (
            Some(bluetooth_controller_state),
            Some(my_bd_addr),
            Some(my_bd_addr_type),
            Some(max_pending_connections),
            Some(max_concurrently_connected_buttons),
            Some(current_pending_connections),
            Some(currently_no_space_for_new_connection),
            Some(buttons_size),
        ) => {
            let mut bd_addr_of_verified_buttons: Vec<String> = Vec::new();
            let mut k: u16 = 0;
            while k < buttons_size
                invariant
                    r.wf(),
                    r.bytes() == p,
                    p == old(r).bytes(),
                    p.len() >= 15,
                    buttons_size == le_u16_at(p, 13),
                    k <= buttons_size,
                    r.pos() == 15 + 6 * k,
                    bd_addr_of_verified_buttons.len() == k,
                    forall|j: int|
                        0 <= j < k ==> (#[trigger] bd_addr_of_verified_buttons[j])@ == address_at(
                            p,
                            15 + 6 * j,
                        ),
                decreases buttons_size - k,
            {
                match r.read_bdaddr() {
                    Some(bd_addr) => bd_addr_of_verified_buttons.push(bd_addr),
                    None => {
                        return Event::CorruptEvent;
                    },
                }
                k = k + 1;
            }
            match (
                BluetoothControllerState::from_u8(bluetooth_controller_state),
                BdAddrType::from_u8(my_bd_addr_type),
            ) {
                (Some(bluetooth_controller_state), Some(my_bd_addr_type)) => {
                    assert(bd_addr_of_verified_buttons@.map_values(|s: String| s@) =~= Seq::new(
                        buttons_size as nat,
                        |j: int| address_at(p, 15 + 6 * j),
                    ));
                    Event::GetInfoResponse {
                        bluetooth_controller_state,
                        my_bd_addr,
                        my_bd_addr_type,
                        max_pending_connections,
                        max_concurrently_connected_buttons,
                        current_pending_connections,
                        currently_no_space_for_new_connection,
                        bd_addr_of_verified_buttons,
                    }
                },
                _ => Event::CorruptEvent,
            }
        },
        _ => Event::CorruptEvent,
    }
}

/// The 16-bit count at index `i`, as read by the info decoder.
spec fn le_u16_at(p: Seq<u8>, i: int) -> u16 {
    le_u16(p, i) as u16
}

/// Reads the payload of a button info response.
pub(crate) fn read_button_info(r: &mut FieldReader) -> (e: Event)
    requires
        old(r).wf(),
        old(r).pos() == 0,
    ensures
        e@ == decode_button_info(old(r).bytes()),
{
    match (r.read_bdaddr(), r.read_uuid(), r.read_optional_string(), r.read_optional_string()) {
        (Some(bd_addr), Some(uuid), Some(color), Some(serial_number)) => {
            let uuid = match uuid {
                Some(text) => text,
                None => String::new(),
            };
            Event::GetButtonInfoResponse { bd_addr, uuid, color, serial_number }
        },
        _ => Event::CorruptEvent,
    }
}

} // verus!

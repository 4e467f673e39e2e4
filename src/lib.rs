//! Client-side codec for the button daemon's wire protocol: commands are
//! encoded into length-prefixed frames, and the inbound byte stream is
//! assembled into frames and decoded into events.

pub mod codec;
pub mod commands;
pub mod dispatch;
pub mod enums;
pub mod event_mapper;
pub mod events;

pub use codec::FieldReader;
pub use commands::{Command, CommandToByteMapper, EncodeError};
pub use dispatch::dispatch_order;
pub use enums::{
    BdAddrType, BluetoothControllerState, ClickType, ConnectionStatus,
    CreateConnectionChannelError, DisconnectReason, LatencyMode, RemovedReason, ScanWizardResult,
};
pub use event_mapper::{ByteToEventMapper, EventResult, MAX_BUFFERED};
pub use events::{Event, OpCode};

//! The closed sets of named byte values carried by command and event fields.
//!
//! Each set is numbered from zero in declaration order; a byte outside the set
//! has no value.

use vstd::prelude::*;

verus! {
/// Outcome of a connection-channel request.
#[derive(Debug, PartialEq, Eq, Hash, Clone, Copy, Structural)]
pub enum CreateConnectionChannelError {
    NoError,
    MaxPendingConnectionsReached,
}

impl CreateConnectionChannelError {
    /// The value that byte `b` stands for, if any.
    pub open spec fn spec_from_u8(b: u8) -> Option<CreateConnectionChannelError> {
        if b == 0 {
            Some(CreateConnectionChannelError::NoError)
        } else if b == 1 {
            Some(CreateConnectionChannelError::MaxPendingConnectionsReached)
        } else {
            None
        }
    }

    /// The byte that stands for this value.
    pub open spec fn spec_to_u8(self) -> u8 {
        match self {
            CreateConnectionChannelError::NoError => 0,
            CreateConnectionChannelError::MaxPendingConnectionsReached => 1,
        }
    }

    /// Reads a value from its byte; `None` when the byte is outside the set.
    pub fn from_u8(b: u8) -> (r: Option<CreateConnectionChannelError>)
        ensures
            r == Self::spec_from_u8(b),
    {
        if b == 0 {
            Some(CreateConnectionChannelError::NoError)
        } else if b == 1 {
            Some(CreateConnectionChannelError::MaxPendingConnectionsReached)
        } else {
            None
        }
    }

    /// The byte that stands for this value.
    pub fn to_u8(&self) -> (r: u8)
        ensures
            r == self.spec_to_u8(),
            Self::spec_from_u8(r) == Some(*self),
    {
        match self {
            CreateConnectionChannelError::NoError => 0,
            CreateConnectionChannelError::MaxPendingConnectionsReached => 1,
        }
    }
}

/// State of the link to a button.
#[derive(Debug, PartialEq, Eq, Hash, Clone, Copy, Structural)]
pub enum ConnectionStatus {
    Disconnected,
    Connected,
    Ready,
}

impl ConnectionStatus {
    /// The value that byte `b` stands for, if any.
    pub open spec fn spec_from_u8(b: u8) -> Option<ConnectionStatus> {
        if b == 0 {
            Some(ConnectionStatus::Disconnected)
        } else if b == 1 {
            Some(ConnectionStatus::Connected)
        } else if b == 2 {
            Some(ConnectionStatus::Ready)
        } else {
            None
        }
    }

    /// The byte that stands for this value.
    pub open spec fn spec_to_u8(self) -> u8 {
        match self {
            ConnectionStatus::Disconnected => 0,
            ConnectionStatus::Connected => 1,
            ConnectionStatus::Ready => 2,
        }
    }

    /// Reads a value from its byte; `None` when the byte is outside the set.
    pub fn from_u8(b: u8) -> (r: Option<ConnectionStatus>)
        ensures
            r == Self::spec_from_u8(b),
    {
        if b == 0 {
            Some(ConnectionStatus::Disconnected)
        } else if b == 1 {
            Some(ConnectionStatus::Connected)
        } else if b == 2 {
            Some(ConnectionStatus::Ready)
        } else {
            None
        }
    }

    /// The byte that stands for this value.
    pub fn to_u8(&self) -> (r: u8)
        ensures
            r == self.spec_to_u8(),
            Self::spec_from_u8(r) == Some(*self),
    {
        match self {
            ConnectionStatus::Disconnected => 0,
            ConnectionStatus::Connected => 1,
            ConnectionStatus::Ready => 2,
        }
    }
}

/// Why a button link went down.
#[derive(Debug, PartialEq, Eq, Hash, Clone, Copy, Structural)]
pub enum DisconnectReason {
    Unspecified,
    ConnectionEstablishmentFailed,
    TimedOut,
    BondingKeysMismatch,
}

impl DisconnectReason {
    /// The value that byte `b` stands for, if any.
    pub open spec fn spec_from_u8(b: u8) -> Option<DisconnectReason> {
        if b == 0 {
            Some(DisconnectReason::Unspecified)
        } else if b == 1 {
            Some(DisconnectReason::ConnectionEstablishmentFailed)
        } else if b == 2 {
            Some(DisconnectReason::TimedOut)
        } else if b == 3 {
            Some(DisconnectReason::BondingKeysMismatch)
        } else {
            None
        }
    }

    /// The byte that stands for this value.
    pub open spec fn spec_to_u8(self) -> u8 {
        match self {
            DisconnectReason::Unspecified => 0,
            DisconnectReason::ConnectionEstablishmentFailed => 1,
            DisconnectReason::TimedOut => 2,
            DisconnectReason::BondingKeysMismatch => 3,
        }
    }

    /// Reads a value from its byte; `None` when the byte is outside the set.
    pub fn from_u8(b: u8) -> (r: Option<DisconnectReason>)
        ensures
            r == Self::spec_from_u8(b),
    {
        if b == 0 {
            Some(DisconnectReason::Unspecified)
        } else if b == 1 {
            Some(DisconnectReason::ConnectionEstablishmentFailed)
        } else if b == 2 {
            Some(DisconnectReason::TimedOut)
        } else if b == 3 {
            Some(DisconnectReason::BondingKeysMismatch)
        } else {
            None
        }
    }

    /// The byte that stands for this value.
    pub fn to_u8(&self) -> (r: u8)
        ensures
            r == self.spec_to_u8(),
            Self::spec_from_u8(r) == Some(*self),
    {
        match self {
            DisconnectReason::Unspecified => 0,
            DisconnectReason::ConnectionEstablishmentFailed => 1,
            DisconnectReason::TimedOut => 2,
            DisconnectReason::BondingKeysMismatch => 3,
        }
    }
}

/// Why a connection channel was removed.
#[derive(Debug, PartialEq, Eq, Hash, Clone, Copy, Structural)]
pub enum RemovedReason {
    RemovedByThisClient,
    ForceDisconnectedByThisClient,
    ForceDisconnectedByOtherClient,
    ButtonIsPrivate,
    VerifyTimeout,
    InternetBackendError,
    InvalidData,
    CouldntLoadDevice,
    DeletedByThisClient,
    DeletedByOtherClient,
    ButtonBelongsToOtherPartner,
    DeletedFromButton,
}

impl RemovedReason {
    /// The value that byte `b` stands for, if any.
    pub open spec fn spec_from_u8(b: u8) -> Option<RemovedReason> {
        if b == 0 {
            Some(RemovedReason::RemovedByThisClient)
        } else if b == 1 {
            Some(RemovedReason::ForceDisconnectedByThisClient)
        } else if b == 2 {
            Some(RemovedReason::ForceDisconnectedByOtherClient)
        } else if b == 3 {
            Some(RemovedReason::ButtonIsPrivate)
        } else if b == 4 {
            Some(RemovedReason::VerifyTimeout)
        } else if b == 5 {
            Some(RemovedReason::InternetBackendError)
        } else if b == 6 {
            Some(RemovedReason::InvalidData)
        } else if b == 7 {
            Some(RemovedReason::CouldntLoadDevice)
        } else if b == 8 {
            Some(RemovedReason::DeletedByThisClient)
        } else if b == 9 {
            Some(RemovedReason::DeletedByOtherClient)
        } else if b == 10 {
            Some(RemovedReason::ButtonBelongsToOtherPartner)
        } else if b == 11 {
            Some(RemovedReason::DeletedFromButton)
        } else {
            None
        }
    }

    /// The byte that stands for this value.
    pub open spec fn spec_to_u8(self) -> u8 {
        match self {
            RemovedReason::RemovedByThisClient => 0,
            RemovedReason::ForceDisconnectedByThisClient => 1,
            RemovedReason::ForceDisconnectedByOtherClient => 2,
            RemovedReason::ButtonIsPrivate => 3,
            RemovedReason::VerifyTimeout => 4,
            RemovedReason::InternetBackendError => 5,
            RemovedReason::InvalidData => 6,
            RemovedReason::CouldntLoadDevice => 7,
            RemovedReason::DeletedByThisClient => 8,
            RemovedReason::DeletedByOtherClient => 9,
            RemovedReason::ButtonBelongsToOtherPartner => 10,
            RemovedReason::DeletedFromButton => 11,
        }
    }

    /// Reads a value from its byte; `None` when the byte is outside the set.
    pub fn from_u8(b: u8) -> (r: Option<RemovedReason>)
        ensures
            r == Self::spec_from_u8(b),
    {
        if b == 0 {
            Some(RemovedReason::RemovedByThisClient)
        } else if b == 1 {
            Some(RemovedReason::ForceDisconnectedByThisClient)
        } else if b == 2 {
            Some(RemovedReason::ForceDisconnectedByOtherClient)
        } else if b == 3 {
            Some(RemovedReason::ButtonIsPrivate)
        } else if b == 4 {
            Some(RemovedReason::VerifyTimeout)
        } else if b == 5 {
            Some(RemovedReason::InternetBackendError)
        } else if b == 6 {
            Some(RemovedReason::InvalidData)
        } else if b == 7 {
            Some(RemovedReason::CouldntLoadDevice)
        } else if b == 8 {
            Some(RemovedReason::DeletedByThisClient)
        } else if b == 9 {
            Some(RemovedReason::DeletedByOtherClient)
        } else if b == 10 {
            Some(RemovedReason::ButtonBelongsToOtherPartner)
        } else if b == 11 {
            Some(RemovedReason::DeletedFromButton)
        } else {
            None
        }
    }

    /// The byte that stands for this value.
    pub fn to_u8(&self) -> (r: u8)
        ensures
            r == self.spec_to_u8(),
            Self::spec_from_u8(r) == Some(*self),
    {
        match self {
            RemovedReason::RemovedByThisClient => 0,
            RemovedReason::ForceDisconnectedByThisClient => 1,
            RemovedReason::ForceDisconnectedByOtherClient => 2,
            RemovedReason::ButtonIsPrivate => 3,
            RemovedReason::VerifyTimeout => 4,
            RemovedReason::InternetBackendError => 5,
            RemovedReason::InvalidData => 6,
            RemovedReason::CouldntLoadDevice => 7,
            RemovedReason::DeletedByThisClient => 8,
            RemovedReason::DeletedByOtherClient => 9,
            RemovedReason::ButtonBelongsToOtherPartner => 10,
            RemovedReason::DeletedFromButton => 11,
        }
    }
}

/// Kind of press reported by a button.
#[derive(Debug, PartialEq, Eq, Hash, Clone, Copy, Structural)]
pub enum ClickType {
    ButtonDown,
    ButtonUp,
    ButtonClick,
    ButtonSingleClick,
    ButtonDoubleClick,
    ButtonHold,
}

impl ClickType {
    /// The value that byte `b` stands for, if any.
    pub open spec fn spec_from_u8(b: u8) -> Option<ClickType> {
        if b == 0 {
            Some(ClickType::ButtonDown)
        } else if b == 1 {
            Some(ClickType::ButtonUp)
        } else if b == 2 {
            Some(ClickType::ButtonClick)
        } else if b == 3 {
            Some(ClickType::ButtonSingleClick)
        } else if b == 4 {
            Some(ClickType::ButtonDoubleClick)
        } else if b == 5 {
            Some(ClickType::ButtonHold)
        } else {
            None
        }
    }

    /// The byte that stands for this value.
    pub open spec fn spec_to_u8(self) -> u8 {
        match self {
            ClickType::ButtonDown => 0,
            ClickType::ButtonUp => 1,
            ClickType::ButtonClick => 2,
            ClickType::ButtonSingleClick => 3,
            ClickType::ButtonDoubleClick => 4,
            ClickType::ButtonHold => 5,
        }
    }

    /// Reads a value from its byte; `None` when the byte is outside the set.
    pub fn from_u8(b: u8) -> (r: Option<ClickType>)
        ensures
            r == Self::spec_from_u8(b),
    {
        if b == 0 {
            Some(ClickType::ButtonDown)
        } else if b == 1 {
            Some(ClickType::ButtonUp)
        } else if b == 2 {
            Some(ClickType::ButtonClick)
        } else if b == 3 {
            Some(ClickType::ButtonSingleClick)
        } else if b == 4 {
            Some(ClickType::ButtonDoubleClick)
        } else if b == 5 {
            Some(ClickType::ButtonHold)
        } else {
            None
        }
    }

    /// The byte that stands for this value.
    pub fn to_u8(&self) -> (r: u8)
        ensures
            r == self.spec_to_u8(),
            Self::spec_from_u8(r) == Some(*self),
    {
        match self {
            ClickType::ButtonDown => 0,
            ClickType::ButtonUp => 1,
            ClickType::ButtonClick => 2,
            ClickType::ButtonSingleClick => 3,
            ClickType::ButtonDoubleClick => 4,
            ClickType::ButtonHold => 5,
        }
    }
}

/// Whether a device address is public or random.
#[derive(Debug, PartialEq, Eq, Hash, Clone, Copy, Structural)]
pub enum BdAddrType {
    PublicBdAddrType,
    RandomBdAddrType,
}

impl BdAddrType {
    /// The value that byte `b` stands for, if any.
    pub open spec fn spec_from_u8(b: u8) -> Option<BdAddrType> {
        if b == 0 {
            Some(BdAddrType::PublicBdAddrType)
        } else if b == 1 {
            Some(BdAddrType::RandomBdAddrType)
        } else {
            None
        }
    }

    /// The byte that stands for this value.
    pub open spec fn spec_to_u8(self) -> u8 {
        match self {
            BdAddrType::PublicBdAddrType => 0,
            BdAddrType::RandomBdAddrType => 1,
        }
    }

    /// Reads a value from its byte; `None` when the byte is outside the set.
    pub fn from_u8(b: u8) -> (r: Option<BdAddrType>)
        ensures
            r == Self::spec_from_u8(b),
    {
        if b == 0 {
            Some(BdAddrType::PublicBdAddrType)
        } else if b == 1 {
            Some(BdAddrType::RandomBdAddrType)
        } else {
            None
        }
    }

    /// The byte that stands for this value.
    pub fn to_u8(&self) -> (r: u8)
        ensures
            r == self.spec_to_u8(),
            Self::spec_from_u8(r) == Some(*self),
    {
        match self {
            BdAddrType::PublicBdAddrType => 0,
            BdAddrType::RandomBdAddrType => 1,
        }
    }
}

/// Latency requested for a connection channel.
#[derive(Debug, PartialEq, Eq, Hash, Clone, Copy, Structural)]
pub enum LatencyMode {
    NormalLatency,
    LowLatency,
    HighLatency,
}

impl LatencyMode {
    /// The value that byte `b` stands for, if any.
    pub open spec fn spec_from_u8(b: u8) -> Option<LatencyMode> {
        if b == 0 {
            Some(LatencyMode::NormalLatency)
        } else if b == 1 {
            Some(LatencyMode::LowLatency)
        } else if b == 2 {
            Some(LatencyMode::HighLatency)
        } else {
            None
        }
    }

    /// The byte that stands for this value.
    pub open spec fn spec_to_u8(self) -> u8 {
        match self {
            LatencyMode::NormalLatency => 0,
            LatencyMode::LowLatency => 1,
            LatencyMode::HighLatency => 2,
        }
    }

    /// Reads a value from its byte; `None` when the byte is outside the set.
    pub fn from_u8(b: u8) -> (r: Option<LatencyMode>)
        ensures
            r == Self::spec_from_u8(b),
    {
        if b == 0 {
            Some(LatencyMode::NormalLatency)
        } else if b == 1 {
            Some(LatencyMode::LowLatency)
        } else if b == 2 {
            Some(LatencyMode::HighLatency)
        } else {
            None
        }
    }

    /// The byte that stands for this value.
    pub fn to_u8(&self) -> (r: u8)
        ensures
            r == self.spec_to_u8(),
            Self::spec_from_u8(r) == Some(*self),
    {
        match self {
            LatencyMode::NormalLatency => 0,
            LatencyMode::LowLatency => 1,
            LatencyMode::HighLatency => 2,
        }
    }
}

/// Final outcome of a scan wizard.
#[derive(Debug, PartialEq, Eq, Hash, Clone, Copy, Structural)]
pub enum ScanWizardResult {
    WizardSuccess,
    WizardCancelledByUser,
    WizardFailedTimeout,
    WizardButtonIsPrivate,
    WizardBluetoothUnavailable,
    WizardInternetBackendError,
    WizardInvalidData,
    WizardButtonBelongsToOtherPartner,
    WizardButtonAlreadyConnectedToOtherDevice,
}

impl ScanWizardResult {
    /// The value that byte `b` stands for, if any.
    pub open spec fn spec_from_u8(b: u8) -> Option<ScanWizardResult> {
        if b == 0 {
            Some(ScanWizardResult::WizardSuccess)
        } else if b == 1 {
            Some(ScanWizardResult::WizardCancelledByUser)
        } else if b == 2 {
            Some(ScanWizardResult::WizardFailedTimeout)
        } else if b == 3 {
            Some(ScanWizardResult::WizardButtonIsPrivate)
        } else if b == 4 {
            Some(ScanWizardResult::WizardBluetoothUnavailable)
        } else if b == 5 {
            Some(ScanWizardResult::WizardInternetBackendError)
        } else if b == 6 {
            Some(ScanWizardResult::WizardInvalidData)
        } else if b == 7 {
            Some(ScanWizardResult::WizardButtonBelongsToOtherPartner)
        } else if b == 8 {
            Some(ScanWizardResult::WizardButtonAlreadyConnectedToOtherDevice)
        } else {
            None
        }
    }

    /// The byte that stands for this value.
    pub open spec fn spec_to_u8(self) -> u8 {
        match self {
            ScanWizardResult::WizardSuccess => 0,
            ScanWizardResult::WizardCancelledByUser => 1,
            ScanWizardResult::WizardFailedTimeout => 2,
            ScanWizardResult::WizardButtonIsPrivate => 3,
            ScanWizardResult::WizardBluetoothUnavailable => 4,
            ScanWizardResult::WizardInternetBackendError => 5,
            ScanWizardResult::WizardInvalidData => 6,
            ScanWizardResult::WizardButtonBelongsToOtherPartner => 7,
            ScanWizardResult::WizardButtonAlreadyConnectedToOtherDevice => 8,
        }
    }

    /// Reads a value from its byte; `None` when the byte is outside the set.
    pub fn from_u8(b: u8) -> (r: Option<ScanWizardResult>)
        ensures
            r == Self::spec_from_u8(b),
    {
        if b == 0 {
            Some(ScanWizardResult::WizardSuccess)
        } else if b == 1 {
            Some(ScanWizardResult::WizardCancelledByUser)
        } else if b == 2 {
            Some(ScanWizardResult::WizardFailedTimeout)
        } else if b == 3 {
            Some(ScanWizardResult::WizardButtonIsPrivate)
        } else if b == 4 {
            Some(ScanWizardResult::WizardBluetoothUnavailable)
        } else if b == 5 {
            Some(ScanWizardResult::WizardInternetBackendError)
        } else if b == 6 {
            Some(ScanWizardResult::WizardInvalidData)
        } else if b == 7 {
            Some(ScanWizardResult::WizardButtonBelongsToOtherPartner)
        } else if b == 8 {
            Some(ScanWizardResult::WizardButtonAlreadyConnectedToOtherDevice)
        } else {
            None
        }
    }

    /// The byte that stands for this value.
    pub fn to_u8(&self) -> (r: u8)
        ensures
            r == self.spec_to_u8(),
            Self::spec_from_u8(r) == Some(*self),
    {
        match self {
            ScanWizardResult::WizardSuccess => 0,
            ScanWizardResult::WizardCancelledByUser => 1,
            ScanWizardResult::WizardFailedTimeout => 2,
            ScanWizardResult::WizardButtonIsPrivate => 3,
            ScanWizardResult::WizardBluetoothUnavailable => 4,
            ScanWizardResult::WizardInternetBackendError => 5,
            ScanWizardResult::WizardInvalidData => 6,
            ScanWizardResult::WizardButtonBelongsToOtherPartner => 7,
            ScanWizardResult::WizardButtonAlreadyConnectedToOtherDevice => 8,
        }
    }
}

/// State of the daemon's Bluetooth controller.
#[derive(Debug, PartialEq, Eq, Hash, Clone, Copy, Structural)]
pub enum BluetoothControllerState {
    Detached,
    Resetting,
    Attached,
}

impl BluetoothControllerState {
    /// The value that byte `b` stands for, if any.
    pub open spec fn spec_from_u8(b: u8) -> Option<BluetoothControllerState> {
        if b == 0 {
            Some(BluetoothControllerState::Detached)
        } else if b == 1 {
            Some(BluetoothControllerState::Resetting)
        } else if b == 2 {
            Some(BluetoothControllerState::Attached)
        } else {
            None
        }
    }

    /// The byte that stands for this value.
    pub open spec fn spec_to_u8(self) -> u8 {
        match self {
            BluetoothControllerState::Detached => 0,
            BluetoothControllerState::Resetting => 1,
            BluetoothControllerState::Attached => 2,
        }
    }

    /// Reads a value from its byte; `None` when the byte is outside the set.
    pub fn from_u8(b: u8) -> (r: Option<BluetoothControllerState>)
        ensures
            r == Self::spec_from_u8(b),
    {
        if b == 0 {
            Some(BluetoothControllerState::Detached)
        } else if b == 1 {
            Some(BluetoothControllerState::Resetting)
        } else if b == 2 {
            Some(BluetoothControllerState::Attached)
        } else {
            None
        }
    }

    /// The byte that stands for this value.
    pub fn to_u8(&self) -> (r: u8)
        ensures
            r == self.spec_to_u8(),
            Self::spec_from_u8(r) == Some(*self),
    {
        match self {
            BluetoothControllerState::Detached => 0,
            BluetoothControllerState::Resetting => 1,
            BluetoothControllerState::Attached => 2,
        }
    }
}

} // verus!

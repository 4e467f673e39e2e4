//! Commands sent to the daemon, and the encoder that turns each into a
//! frame.

use vstd::prelude::*;

use crate::codec::{
    address_text, address_wire, hex_to_u8, i16_bytes, is_canonical_address, is_hex_digit, le_u16,
    le_u32, lemma_address_round_trip, lemma_i16_round_trip, lemma_u16_round_trip,
    lemma_u32_round_trip, u16_bytes, u32_bytes,
};
use vstd::string::StrSliceExecFns;
use crate::enums::LatencyMode;

verus! {

/// A request to the daemon.
#[derive(Debug, PartialEq, Eq, Clone)]
pub enum Command {
    GetInfo,
    CreateScanner {
        scan_id: u32,
    },
    RemoveScanner {
        scan_id: u32,
    },
    CreateConnectionChannel {
        conn_id: u32,
        bd_addr: String,
        latency_mode: LatencyMode,
        auto_disconnect_time: i16,
    },
    RemoveConnectionChannel {
        conn_id: u32,
    },
    ForceDisconnect {
        bd_addr: String,
    },
    ChangeModeParameters {
        conn_id: u32,
        latency_mode: LatencyMode,
        auto_disconnect_time: i16,
    },
    Ping {
        ping_id: u32,
    },
    GetButtonInfo {
        bd_addr: String,
    },
    CreateScanWizard {
        scan_wizard_id: u32,
    },
    CancelScanWizard {
        scan_wizard_id: u32,
    },
    DeleteButton {
        bd_addr: String,
    },
    CreateBatteryStatusListener {
        listener_id: u32,
        bd_addr: String,
    },
    RemoveBatteryStatusListener {
        listener_id: u32,
    },
}

impl Command {
    /// The opcode of the command's shape.
    pub open spec fn spec_opcode(&self) -> u8 {
        match self {
            Command::GetInfo => 0,
            Command::CreateScanner { .. } => 1,
            Command::RemoveScanner { .. } => 2,
            Command::CreateConnectionChannel { .. } => 3,
            Command::RemoveConnectionChannel { .. } => 4,
            Command::ForceDisconnect { .. } => 5,
            Command::ChangeModeParameters { .. } => 6,
            Command::Ping { .. } => 7,
            Command::GetButtonInfo { .. } => 8,
            Command::CreateScanWizard { .. } => 9,
            Command::CancelScanWizard { .. } => 10,
            Command::DeleteButton { .. } => 11,
            Command::CreateBatteryStatusListener { .. } => 12,
            Command::RemoveBatteryStatusListener { .. } => 13,
        }
    }

    /// The opcode of the command's shape.
    pub fn opcode(&self) -> (r: u8)
        ensures
            r == self.spec_opcode(),
    {
        match self {
            Command::GetInfo => 0,
            Command::CreateScanner { .. } => 1,
            Command::RemoveScanner { .. } => 2,
            Command::CreateConnectionChannel { .. } => 3,
            Command::RemoveConnectionChannel { .. } => 4,
            Command::ForceDisconnect { .. } => 5,
            Command::ChangeModeParameters { .. } => 6,
            Command::Ping { .. } => 7,
            Command::GetButtonInfo { .. } => 8,
            Command::CreateScanWizard { .. } => 9,
            Command::CancelScanWizard { .. } => 10,
            Command::DeleteButton { .. } => 11,
            Command::CreateBatteryStatusListener { .. } => 12,
            Command::RemoveBatteryStatusListener { .. } => 13,
        }
    }

    /// Every device address that the command carries is canonical.
    pub open spec fn addresses_valid(&self) -> bool {
        match self {
            Command::CreateConnectionChannel { bd_addr, .. } => is_canonical_address(bd_addr@),
            Command::ForceDisconnect { bd_addr, .. } => is_canonical_address(bd_addr@),
            Command::GetButtonInfo { bd_addr, .. } => is_canonical_address(bd_addr@),
            Command::DeleteButton { bd_addr, .. } => is_canonical_address(bd_addr@),
            Command::CreateBatteryStatusListener { bd_addr, .. } => is_canonical_address(bd_addr@),
            _ => true,
        }
    }

    /// The opcode byte followed by the command's fields in order.
    pub open spec fn spec_body(&self) -> Seq<u8> {
        match *self {
            Command::GetInfo => seq![0u8],
            Command::CreateScanner { scan_id } => seq![1u8] + u32_bytes(scan_id),
            Command::RemoveScanner { scan_id } => seq![2u8] + u32_bytes(scan_id),
            Command::CreateConnectionChannel {
                conn_id,
                bd_addr,
                latency_mode,
                auto_disconnect_time,
            } => seq![3u8]
                + u32_bytes(conn_id)
                + address_wire(bd_addr@)
                + seq![latency_mode.spec_to_u8()]
                + i16_bytes(auto_disconnect_time),
            Command::RemoveConnectionChannel { conn_id } => seq![4u8] + u32_bytes(conn_id),
            Command::ForceDisconnect { bd_addr } => seq![5u8] + address_wire(bd_addr@),
            Command::ChangeModeParameters {
                conn_id,
                latency_mode,
                auto_disconnect_time,
            } => seq![6u8]
                + u32_bytes(conn_id)
                + seq![latency_mode.spec_to_u8()]
                + i16_bytes(auto_disconnect_time),
            Command::Ping { ping_id } => seq![7u8] + u32_bytes(ping_id),
            Command::GetButtonInfo { bd_addr } => seq![8u8] + address_wire(bd_addr@),
            Command::CreateScanWizard { scan_wizard_id } => seq![9u8] + u32_bytes(scan_wizard_id),
            Command::CancelScanWizard { scan_wizard_id } => seq![10u8] + u32_bytes(scan_wizard_id),
            Command::DeleteButton { bd_addr } => seq![11u8] + address_wire(bd_addr@),
            Command::CreateBatteryStatusListener { listener_id, bd_addr } => seq![12u8]
                + u32_bytes(listener_id)
                + address_wire(bd_addr@),
            Command::RemoveBatteryStatusListener { listener_id } => seq![13u8]
                + u32_bytes(listener_id),
        }
    }

    /// The command's frame: the body's length in two little-endian bytes,
    /// then the body.
    pub open spec fn spec_frame(&self) -> Seq<u8> {
        u16_bytes(self.spec_body().len() as u16) + self.spec_body()
    }
}

/// `f` is a whole frame that, read back field by field with the codec's
/// decoders, gives exactly the command `c`: its length field counts the
/// bytes after it, its opcode is `c`'s, and each field of `c` sits next in
/// order.
pub open spec fn reparses_to(f: Seq<u8>, c: Command) -> bool {
    &&& f.len() >= 3
    &&& le_u16(f, 0) == f.len() - 2
    &&& f[2] == c.spec_opcode()
    &&& match c {
        Command::GetInfo => f.len() == 3,
        Command::CreateScanner { scan_id } => f.len() == 7 && le_u32(f, 3) == scan_id,
        Command::RemoveScanner { scan_id } => f.len() == 7 && le_u32(f, 3) == scan_id,
        Command::CreateConnectionChannel {
            conn_id,
            bd_addr,
            latency_mode,
            auto_disconnect_time,
        } => {
            &&& f.len() == 16
            &&& le_u32(f, 3) == conn_id
            &&& address_text(f.subrange(7, 13)) == bd_addr@
            &&& LatencyMode::spec_from_u8(f[13]) == Some(latency_mode)
            &&& (le_u16(f, 14) as u16) as i16 == auto_disconnect_time
        },
        Command::RemoveConnectionChannel { conn_id } => f.len() == 7 && le_u32(f, 3) == conn_id,
        Command::ForceDisconnect { bd_addr } => f.len() == 9 && address_text(f.subrange(3, 9))
            == bd_addr@,
        Command::ChangeModeParameters { conn_id, latency_mode, auto_disconnect_time } => {
            &&& f.len() == 10
            &&& le_u32(f, 3) == conn_id
            &&& LatencyMode::spec_from_u8(f[7]) == Some(latency_mode)
            &&& (le_u16(f, 8) as u16) as i16 == auto_disconnect_time
        },
        Command::Ping { ping_id } => f.len() == 7 && le_u32(f, 3) == ping_id,
        Command::GetButtonInfo { bd_addr } => f.len() == 9 && address_text(f.subrange(3, 9))
            == bd_addr@,
        Command::CreateScanWizard { scan_wizard_id } => f.len() == 7 && le_u32(f, 3)
            == scan_wizard_id,
        Command::CancelScanWizard { scan_wizard_id } => f.len() == 7 && le_u32(f, 3)
            == scan_wizard_id,
        Command::DeleteButton { bd_addr } => f.len() == 9 && address_text(f.subrange(3, 9))
            == bd_addr@,
        Command::CreateBatteryStatusListener { listener_id, bd_addr } => {
            &&& f.len() == 13
            &&& le_u32(f, 3) == listener_id
            &&& address_text(f.subrange(7, 13)) == bd_addr@
        },
        Command::RemoveBatteryStatusListener { listener_id } => f.len() == 7 && le_u32(f, 3)
            == listener_id,
    }
}

/// Every command whose device addresses are canonical encodes to a frame
/// that reads back, field by field, to the same command.
#[verifier::rlimit(30)]
pub proof fn lemma_command_round_trip(c: Command)
    requires
        c.addresses_valid(),
    ensures
        reparses_to(c.spec_frame(), c),
{
    let body = c.spec_body();
    let f = c.spec_frame();
    assert(body.len() < 256);
    lemma_u16_round_trip(body.len() as u16);
    assert(f.subrange(0, 2) == u16_bytes(body.len() as u16));
    match c {
        Command::GetInfo => {},
        Command::CreateScanner { scan_id } => {
            lemma_u32_round_trip(scan_id);
        },
        Command::RemoveScanner { scan_id } => {
            lemma_u32_round_trip(scan_id);
        },
        Command::CreateConnectionChannel {
            conn_id,
            bd_addr,
            latency_mode,
            auto_disconnect_time,
        } => {
            lemma_u32_round_trip(conn_id);
            lemma_address_round_trip(bd_addr@);
            lemma_i16_round_trip(auto_disconnect_time);
            assert(f.subrange(7, 13) =~= address_wire(bd_addr@));
        },
        Command::RemoveConnectionChannel { conn_id } => {
            lemma_u32_round_trip(conn_id);
        },
        Command::ForceDisconnect { bd_addr } => {
            lemma_address_round_trip(bd_addr@);
            assert(f.subrange(3, 9) =~= address_wire(bd_addr@));
        },
        Command::ChangeModeParameters { conn_id, latency_mode, auto_disconnect_time } => {
            lemma_u32_round_trip(conn_id);
            lemma_i16_round_trip(auto_disconnect_time);
        },
        Command::Ping { ping_id } => {
            lemma_u32_round_trip(ping_id);
        },
        Command::GetButtonInfo { bd_addr } => {
            lemma_address_round_trip(bd_addr@);
            assert(f.subrange(3, 9) =~= address_wire(bd_addr@));
        },
        Command::CreateScanWizard { scan_wizard_id } => {
            lemma_u32_round_trip(scan_wizard_id);
        },
        Command::CancelScanWizard { scan_wizard_id } => {
            lemma_u32_round_trip(scan_wizard_id);
        },
        Command::DeleteButton { bd_addr } => {
            lemma_address_round_trip(bd_addr@);
            assert(f.subrange(3, 9) =~= address_wire(bd_addr@));
        },
        Command::CreateBatteryStatusListener { listener_id, bd_addr } => {
            lemma_u32_round_trip(listener_id);
            lemma_address_round_trip(bd_addr@);
            assert(f.subrange(7, 13) =~= address_wire(bd_addr@));
        },
        Command::RemoveBatteryStatusListener { listener_id } => {
            lemma_u32_round_trip(listener_id);
        },
    }
}

/// Why a command could not be encoded.
#[derive(Debug, PartialEq, Eq, Clone, Copy, Structural)]
pub enum EncodeError {
    /// A device address is not six pairs of lowercase hex digits joined by
    /// colons.
    InvalidAddress,
}

/// Relies on `regex::Regex::is_match` with a pattern anchored at both ends
/// that accepts exactly six pairs of lowercase hex digits joined by colons.
#[verifier::external_body]
fn matches_address_pattern(s: &str) -> (r: bool)
    ensures
        r == is_canonical_address(s@),
{
    let re = regex::Regex::new(r"^([0-9a-f]{2}:){5}[0-9a-f]{2}$").unwrap();
    re.is_match(s)
}

/// The command encoder. Its scratch buffer is cleared at the start of every
/// call, so no bytes carry over from one command to the next.
pub struct CommandToByteMapper {
    buffer: Vec<u8>,
}

impl View for CommandToByteMapper {
    type V = Seq<u8>;

    closed spec fn view(&self) -> Seq<u8> {
        self.buffer@
    }
}

impl CommandToByteMapper {
    /// An encoder with an empty buffer.
    pub fn new() -> (r: CommandToByteMapper)
        ensures
            r@ == Seq::<u8>::empty(),
    {
        CommandToByteMapper { buffer: Vec::new() }
    }

    /// Encodes a command into its frame: two little-endian length bytes,
    /// the opcode, then the fields in order. Fails, and only then, when a
    /// device address is not canonical.
    pub fn map(&mut self, command: Command) -> (r: Result<Vec<u8>, EncodeError>)
        ensures
            match r {
                Ok(bytes) => command.addresses_valid() && bytes@ == command.spec_frame(),
                Err(e) => !command.addresses_valid() && e == EncodeError::InvalidAddress,
            },
    {
        self.clear_buffer();
        self.write_u8(command.opcode());
        match command {
            Command::GetInfo => {},
            Command::CreateScanner { scan_id } => {
                self.write_u32(scan_id);
            },
            Command::RemoveScanner { scan_id } => {
                self.write_u32(scan_id);
            },
            Command::CreateConnectionChannel {
                conn_id,
                bd_addr,
                latency_mode,
                auto_disconnect_time,
            } => {
                self.write_u32(conn_id);
                self.write_bdaddr(bd_addr.as_str())?;
                self.write_u8(latency_mode.to_u8());
                self.write_i16(auto_disconnect_time);
            },
            Command::RemoveConnectionChannel { conn_id } => {
                self.write_u32(conn_id);
            },
            Command::ForceDisconnect { bd_addr } => {
                self.write_bdaddr(bd_addr.as_str())?;
            },
            Command::ChangeModeParameters { conn_id, latency_mode, auto_disconnect_time } => {
                self.write_u32(conn_id);
                self.write_u8(latency_mode.to_u8());
                self.write_i16(auto_disconnect_time);
            },
            Command::Ping { ping_id } => {
                self.write_u32(ping_id);
            },
            Command::GetButtonInfo { bd_addr } => {
                self.write_bdaddr(bd_addr.as_str())?;
            },
            Command::CreateScanWizard { scan_wizard_id } => {
                self.write_u32(scan_wizard_id);
            },
            Command::CancelScanWizard { scan_wizard_id } => {
                self.write_u32(scan_wizard_id);
            },
            Command::DeleteButton { bd_addr } => {
                self.write_bdaddr(bd_addr.as_str())?;
            },
            Command::CreateBatteryStatusListener { listener_id, bd_addr } => {
                self.write_u32(listener_id);
                self.write_bdaddr(bd_addr.as_str())?;
            },
            Command::RemoveBatteryStatusListener { listener_id } => {
                self.write_u32(listener_id);
            },
        }
        assert(self@ =~= command.spec_body());
        self.prepend_size();
        Ok(self.buffer.split_off(0))
    }

    fn clear_buffer(&mut self)
        ensures
            final(self)@ == Seq::<u8>::empty(),
    {
        self.buffer.clear();
    }

    /// Puts the buffer's length in front of it, in two little-endian bytes.
    fn prepend_size(&mut self)
        requires
            old(self)@.len() < 65536,
        ensures
            final(self)@ == u16_bytes(old(self)@.len() as u16) + old(self)@,
    {
        let len = self.buffer.len();
        self.buffer.insert(0, (len / 256) as u8);
        self.buffer.insert(0, (len % 256) as u8);
        assert(self@ =~= u16_bytes(len as u16) + old(self)@);
    }

    fn write_u8(&mut self, value: u8)
        ensures
            final(self)@ == old(self)@.push(value),
    {
        self.buffer.push(value);
    }

    fn write_u16(&mut self, value: u16)
        ensures
            final(self)@ == old(self)@ + u16_bytes(value),
    {
        self.write_u8((value % 256) as u8);
        self.write_u8((value / 256) as u8);
        assert(self@ =~= old(self)@ + u16_bytes(value));
    }

    fn write_i16(&mut self, value: i16)
        ensures
            final(self)@ == old(self)@ + i16_bytes(value),
    {
        self.write_u16(value as u16);
    }

    fn write_u32(&mut self, value: u32)
        ensures
            final(self)@ == old(self)@ + u32_bytes(value),
    {
        self.write_u16((value % 65536) as u16);
        self.write_u16((value / 65536) as u16);
        assert(self@ =~= old(self)@ + u32_bytes(value));
    }

    /// Writes a canonical address's six octets, last one first; fails, and
    /// writes nothing, when the text is not canonical.
    fn write_bdaddr(&mut self, s: &str) -> (r: Result<(), EncodeError>)
        ensures
            r is Ok <==> is_canonical_address(s@),
            r is Ok ==> final(self)@ == old(self)@ + address_wire(s@),
            r matches Err(e) ==> e == EncodeError::InvalidAddress,
            r is Err ==> final(self)@ == old(self)@,
    {
        if !matches_address_pattern(s) {
            return Err(EncodeError::InvalidAddress);
        }
        let ghost start = self@;
        let mut k: usize = 6;
        while k > 0
            invariant
                k <= 6,
                is_canonical_address(s@),
                start == old(self)@,
                self@ == start + address_wire(s@).subrange(0, 6 - k as int),
            decreases k,
        {
            k = k - 1;
            let upper = s.get_char(3 * k);
            let lower = s.get_char(3 * k + 1);
            assert(is_hex_digit(s@[3 * k as int]) && is_hex_digit(s@[3 * k + 1]));
            match hex_to_u8(upper, lower) {
                Some(b) => {
                    self.write_u8(b);
                    assert(self@ =~= start + address_wire(s@).subrange(0, 6 - k as int));
                },
                None => {},
            }
        }
        assert(address_wire(s@).subrange(0, 6) =~= address_wire(s@));
        Ok(())
    }
}

} // verus!

//! The event frame assembler: an accumulator that takes the inbound stream
//! one byte at a time, cuts it into frames, and decodes each frame.

use vstd::prelude::*;

use crate::codec::{le_u16, FieldReader};
use crate::enums::{
    BluetoothControllerState, ConnectionStatus, CreateConnectionChannelError, DisconnectReason,
    RemovedReason, ScanWizardResult,
};
use crate::events::{
    decode_frame, decode_payload, read_advertisement, read_button, read_button_info, read_info,
    Event, EventView, OpCode,
};

verus! {

/// Size at which the accumulator is given up: a stream that reaches it
/// without completing a frame is discarded.
pub const MAX_BUFFERED: usize = 2048;

/// What one inbound byte leads to.
#[derive(Debug, PartialEq, Eq, Clone)]
pub enum EventResult {
    /// A frame completed and decoded to this event.
    Decoded(Event),
    /// The header named an unknown opcode; the accumulator was discarded.
    /// The event is always `CorruptEvent`.
    Failure(Event),
    /// The accumulator reached `MAX_BUFFERED` bytes without a frame and was
    /// discarded.
    Drained,
    /// No frame is complete yet.
    Pending,
    /// A frame completed but its payload did not decode.
    CorruptPackage,
}

/// The mathematical value of an `EventResult`.
pub enum EventResultView {
    Decoded(EventView),
    Failure(EventView),
    Drained,
    Pending,
    CorruptPackage,
}

impl View for EventResult {
    type V = EventResultView;

    open spec fn view(&self) -> EventResultView {
        match self {
            EventResult::Decoded(e) => EventResultView::Decoded(e@),
            EventResult::Failure(e) => EventResultView::Failure(e@),
            EventResult::Drained => EventResultView::Drained,
            EventResult::Pending => EventResultView::Pending,
            EventResult::CorruptPackage => EventResultView::CorruptPackage,
        }
    }
}

/// Total size of the frame whose header opens `a`: the length field plus
/// its own two bytes.
pub open spec fn frame_size(a: Seq<u8>) -> int {
    le_u16(a, 0) + 2
}

/// The result reported for a complete frame.
pub open spec fn frame_result(f: Seq<u8>) -> EventResultView {
    match decode_frame(f) {
        EventView::CorruptEvent => EventResultView::CorruptPackage,
        e => EventResultView::Decoded(e),
    }
}

/// The assembler's rule: the accumulator and the result after byte `b`
/// arrives on accumulator `acc`.
///
/// With fewer than three bytes nothing is decided. Once the frame that the
/// header announces is all there, it is cut off the front and decoded. Else
/// an unknown opcode discards everything as a framing failure, and reaching
/// `MAX_BUFFERED` bytes discards everything as an overflow.
pub open spec fn step(acc: Seq<u8>, b: u8) -> (Seq<u8>, EventResultView) {
    let a = acc.push(b);
    if a.len() < 3 {
        (a, EventResultView::Pending)
    } else if a.len() >= frame_size(a) {
        (
            a.subrange(frame_size(a), a.len() as int),
            frame_result(a.subrange(0, frame_size(a))),
        )
    } else if OpCode::spec_from_u8(a[2]) is None {
        (Seq::empty(), EventResultView::Failure(EventView::CorruptEvent))
    } else if a.len() >= MAX_BUFFERED {
        (Seq::empty(), EventResultView::Drained)
    } else {
        (a, EventResultView::Pending)
    }
}

/// An accumulator that the assembler can hold between bytes: below
/// `MAX_BUFFERED` bytes and, once it has a header, with a known opcode and
/// an incomplete frame.
pub open spec fn accumulator_ok(a: Seq<u8>) -> bool {
    &&& a.len() < MAX_BUFFERED
    &&& a.len() >= 3 ==> OpCode::spec_from_u8(a[2]) is Some && a.len() < frame_size(a)
}

/// Every accumulator that the assembler can hold leads, after one more
/// byte, to another such accumulator.
pub proof fn lemma_step_keeps_accumulator(acc: Seq<u8>, b: u8)
    requires
        accumulator_ok(acc),
    ensures
        accumulator_ok(step(acc, b).0),
{
    let a = acc.push(b);
    if a.len() >= 3 && a.len() >= frame_size(a) {
        if acc.len() >= 3 {
            assert(frame_size(acc) == frame_size(a));
        }
        assert(a.len() - frame_size(a) <= 1);
    }
}

/// One byte on a full accumulator that does not complete a frame is an
/// overflow: the accumulator is discarded and `Drained` reported.
pub proof fn lemma_overflow_at_bound(acc: Seq<u8>, b: u8)
    requires
        accumulator_ok(acc),
        acc.len() == MAX_BUFFERED - 1,
        frame_size(acc.push(b)) > MAX_BUFFERED,
    ensures
        step(acc, b) == (Seq::<u8>::empty(), EventResultView::Drained),
{
    assert(frame_size(acc) == frame_size(acc.push(b)));
}

/// Bytes fed one at a time from accumulator `acc`: the final accumulator
/// and the result of each byte, in order.
pub open spec fn feed(acc: Seq<u8>, bytes: Seq<u8>) -> (Seq<u8>, Seq<EventResultView>)
    decreases bytes.len(),
{
    if bytes.len() == 0 {
        (acc, Seq::empty())
    } else {
        let (a, rs) = feed(acc, bytes.drop_last());
        let (next, r) = step(a, bytes.last());
        (next, rs.push(r))
    }
}

/// The events among a run of results, in order.
pub open spec fn decoded_events(rs: Seq<EventResultView>) -> Seq<EventView>
    decreases rs.len(),
{
    if rs.len() == 0 {
        Seq::empty()
    } else {
        let before = decoded_events(rs.drop_last());
        match rs.last() {
            EventResultView::Decoded(e) => before.push(e),
            _ => before,
        }
    }
}

/// `n` pending results.
pub open spec fn pending_run(n: nat) -> Seq<EventResultView> {
    Seq::new(n, |i: int| EventResultView::Pending)
}

/// Feeding the first `k` bytes of `s` to an empty accumulator only
/// accumulates them, as long as the frame that `s` announces is not
/// complete, its opcode is known and the size bound is not reached.
proof fn lemma_feed_prefix(s: Seq<u8>, k: int)
    requires
        s.len() >= 3,
        OpCode::spec_from_u8(s[2]) is Some,
        0 <= k <= s.len(),
        k < frame_size(s),
        k < MAX_BUFFERED,
    ensures
        feed(Seq::empty(), s.subrange(0, k)) == (s.subrange(0, k), pending_run(k as nat)),
    decreases k,
{
    let pre = s.subrange(0, k);
    if k == 0 {
        assert(pre =~= Seq::<u8>::empty());
        assert(pending_run(0) =~= Seq::<EventResultView>::empty());
    } else {
        lemma_feed_prefix(s, k - 1);
        assert(pre.drop_last() =~= s.subrange(0, k - 1));
        assert(s.subrange(0, k - 1).push(s[k - 1]) =~= pre);
        assert(pending_run((k - 1) as nat).push(EventResultView::Pending) =~= pending_run(
            k as nat,
        ));
        if k >= 3 {
            assert(frame_size(pre) == frame_size(s));
        }
    }
}

/// A complete frame with a known opcode, of at most `MAX_BUFFERED` bytes,
/// fed one byte at a time to an empty accumulator gives `Pending` for every
/// byte but the last, and for the last the result of decoding the whole
/// frame at once; the accumulator is empty afterwards.
pub proof fn lemma_incremental_delivery(f: Seq<u8>)
    requires
        f.len() >= 3,
        frame_size(f) == f.len(),
        f.len() <= MAX_BUFFERED,
        OpCode::spec_from_u8(f[2]) is Some,
    ensures
        feed(Seq::empty(), f) == (
            Seq::<u8>::empty(),
            pending_run((f.len() - 1) as nat).push(frame_result(f)),
        ),
{
    let n = f.len() as int;
    lemma_feed_prefix(f, n - 1);
    assert(f.drop_last() =~= f.subrange(0, n - 1));
    assert(f.subrange(0, n - 1).push(f[n - 1]) =~= f);
    assert(f.subrange(0, n) =~= f);
    assert(f.subrange(n, n) =~= Seq::<u8>::empty());
}

/// A header whose opcode names no event, and whose frame is not complete
/// with it, is a framing failure that leaves the accumulator empty: three
/// header bytes fed to an empty accumulator give `Pending`, `Pending`, then
/// `Failure`.
pub proof fn lemma_unknown_opcode_resync(lo: u8, hi: u8, op: u8)
    requires
        OpCode::spec_from_u8(op) is None,
        lo + 256 * hi + 2 > 3,
    ensures
        feed(Seq::empty(), seq![lo, hi, op]) == (
            Seq::<u8>::empty(),
            seq![
                EventResultView::Pending,
                EventResultView::Pending,
                EventResultView::Failure(EventView::CorruptEvent),
            ],
        ),
{
    let s = seq![lo, hi, op];
    let p = EventResultView::Pending;
    assert(s.drop_last() =~= seq![lo, hi]);
    assert(seq![lo, hi].drop_last() =~= seq![lo]);
    assert(seq![lo].drop_last() =~= Seq::<u8>::empty());
    assert(Seq::<u8>::empty().push(lo) =~= seq![lo]);
    assert(seq![lo].push(hi) =~= seq![lo, hi]);
    assert(seq![lo, hi].push(op) =~= s);
    assert(feed(Seq::empty(), Seq::<u8>::empty()) == (
        Seq::<u8>::empty(),
        Seq::<EventResultView>::empty(),
    ));
    assert(step(Seq::empty(), lo) == (seq![lo], p));
    assert(feed(Seq::empty(), seq![lo]) == (seq![lo], Seq::empty().push(p)));
    assert(step(seq![lo], hi) == (seq![lo, hi], p));
    assert(feed(Seq::empty(), seq![lo, hi]) == (seq![lo, hi], Seq::empty().push(p).push(p)));
    assert(frame_size(s) == lo + 256 * hi + 2);
    assert(Seq::<EventResultView>::empty().push(p).push(p).push(
        EventResultView::Failure(EventView::CorruptEvent),
    ) =~= seq![p, p, EventResultView::Failure(EventView::CorruptEvent)]);
}

/// Bytes that announce a frame larger than `MAX_BUFFERED`, with a known
/// opcode, fill the accumulator without a decision for `MAX_BUFFERED - 1`
/// bytes; the next byte discards everything as `Drained`.
pub proof fn lemma_overflow_bound(s: Seq<u8>)
    requires
        s.len() == MAX_BUFFERED,
        OpCode::spec_from_u8(s[2]) is Some,
        frame_size(s) > MAX_BUFFERED,
    ensures
        feed(Seq::empty(), s.subrange(0, MAX_BUFFERED - 1)) == (
            s.subrange(0, MAX_BUFFERED - 1),
            pending_run((MAX_BUFFERED - 1) as nat),
        ),
        feed(Seq::empty(), s) == (
            Seq::<u8>::empty(),
            pending_run((MAX_BUFFERED - 1) as nat).push(EventResultView::Drained),
        ),
{
    let n = MAX_BUFFERED as int;
    lemma_feed_prefix(s, n - 1);
    assert(s.drop_last() =~= s.subrange(0, n - 1));
    assert(s.subrange(0, n - 1).push(s[n - 1]) =~= s);
}

/// What the accumulator can tell about its front frame.
enum HasPacketResult {
    /// A frame of this many bytes is complete.
    Yes(usize),
    NotYet,
    /// The header's opcode names no event.
    Failure,
}

/// The incremental event decoder: it owns the bytes received but not yet
/// decoded.
pub struct ByteToEventMapper {
    fifo: Vec<u8>,
}

impl View for ByteToEventMapper {
    type V = Seq<u8>;

    closed spec fn view(&self) -> Seq<u8> {
        self.fifo@
    }
}

impl ByteToEventMapper {
    /// Between calls the accumulator is one that `map` can leave behind.
    pub open spec fn wf(&self) -> bool {
        accumulator_ok(self@)
    }

    /// An empty accumulator.
    pub fn new() -> (r: ByteToEventMapper)
        ensures
            r.wf(),
            r@ == Seq::<u8>::empty(),
    {
        ByteToEventMapper { fifo: Vec::new() }
    }

    /// Takes one inbound byte and reports what it leads to.
    pub fn map(&mut self, value: u8) -> (r: EventResult)
        requires
            old(self).wf(),
        ensures
            final(self).wf(),
            (final(self)@, r@) == step(old(self)@, value),
    {
        self.fifo.push(value);
        match self.has_packet() {
            HasPacketResult::Yes(size) => {
                let mut frame = self.fifo.split_off(size);
                std::mem::swap(&mut self.fifo, &mut frame);
                match Self::read_event(frame) {
                    Event::CorruptEvent => EventResult::CorruptPackage,
                    event => EventResult::Decoded(event),
                }
            },
            HasPacketResult::Failure => {
                self.fifo.clear();
                EventResult::Failure(Event::CorruptEvent)
            },
            HasPacketResult::NotYet => {
                if self.fifo.len() >= MAX_BUFFERED {
                    self.fifo.clear();
                    EventResult::Drained
                } else {
                    EventResult::Pending
                }
            },
        }
    }

    /// Takes a chunk of inbound bytes one at a time and returns the events
    /// decoded from it, in the order their frames completed. Pending bytes,
    /// corrupt frames, framing failures and overflows yield no event.
    pub fn decode_chunk(&mut self, bytes: &[u8]) -> (events: Vec<Event>)
        requires
            old(self).wf(),
        ensures
            final(self).wf(),
            final(self)@ == feed(old(self)@, bytes@).0,
            events@.map_values(|e: Event| e@) == decoded_events(feed(old(self)@, bytes@).1),
    {
        let mut events: Vec<Event> = Vec::new();
        let mut i: usize = 0;
        while i < bytes.len()
            invariant
                self.wf(),
                i <= bytes@.len(),
                self@ == feed(old(self)@, bytes@.subrange(0, i as int)).0,
                events@.map_values(|e: Event| e@) == decoded_events(
                    feed(old(self)@, bytes@.subrange(0, i as int)).1,
                ),
            decreases bytes@.len() - i,
        {
            let ghost before = feed(old(self)@, bytes@.subrange(0, i as int));
            let ghost seen = events@.map_values(|e: Event| e@);
            let r = self.map(bytes[i]);
            let ghost next = bytes@.subrange(0, i + 1);
            assert(next.drop_last() =~= bytes@.subrange(0, i as int));
            assert(before.1.push(r@).drop_last() =~= before.1);
            match r {
                EventResult::Decoded(e) => {
                    events.push(e);
                    assert(events@.map_values(|e: Event| e@) =~= seen.push(e@));
                },
                _ => {},
            }
            i = i + 1;
        }
        assert(bytes@.subrange(0, bytes@.len() as int) =~= bytes@);
        events
    }

    /// Looks at the header: a complete frame, a bad opcode, or neither.
    fn has_packet(&self) -> (r: HasPacketResult)
        requires
            self.fifo@.len() <= MAX_BUFFERED,
        ensures
            match r {
                HasPacketResult::Yes(size) => self@.len() >= 3 && size == frame_size(self@)
                    && self@.len() >= size,
                HasPacketResult::Failure => self@.len() >= 3 && self@.len() < frame_size(self@)
                    && OpCode::spec_from_u8(self@[2]) is None,
                HasPacketResult::NotYet => self@.len() < 3 || (self@.len() < frame_size(self@)
                    && OpCode::spec_from_u8(self@[2]) is Some),
            },
    {
        if self.fifo.len() < 3 {
            return HasPacketResult::NotYet;
        }
        let lower = self.fifo[0];
        let upper = self.fifo[1];
        let size = (lower as usize) + (upper as usize) * 256 + 2;
        if self.fifo.len() >= size {
            HasPacketResult::Yes(size)
        } else if OpCode::from_u8(self.fifo[2]).is_none() {
            HasPacketResult::Failure
        } else {
            HasPacketResult::NotYet
        }
    }

    /// Decodes one complete frame: two length bytes, the opcode, then the
    /// opcode's fields.
    pub fn read_event(frame: Vec<u8>) -> (e: Event)
        ensures
            e@ == decode_frame(frame@),
    {
        if frame.len() < 3 {
            return Event::CorruptEvent;
        }
        proof {
            reveal(decode_payload);
        }
        let opcode = frame[2];
        let mut frame = frame;
        let payload = frame.split_off(3);
        let mut r = FieldReader::new(payload);
        match OpCode::from_u8(opcode) {
            Some(OpCode::AdvertisementPacket) => read_advertisement(&mut r),
            Some(OpCode::CreateConnectionChannelResponse) => match (
                r.read_u32(),
                r.read_u8(),
                r.read_u8(),
            ) {
                (Some(conn_id), Some(error), Some(connection_status)) => match (
                    CreateConnectionChannelError::from_u8(error),
                    ConnectionStatus::from_u8(connection_status),
                ) {
                    (Some(error), Some(connection_status)) => {
                        Event::CreateConnectionChannelResponse { conn_id, error, connection_status }
                    },
                    _ => Event::CorruptEvent,
                },
                _ => Event::CorruptEvent,
            },
            Some(OpCode::ConnectionStatusChanged) => match (
                r.read_u32(),
                r.read_u8(),
                r.read_u8(),
            ) {
                (Some(conn_id), Some(connection_status), Some(disconnect_reason)) => match (
                    ConnectionStatus::from_u8(connection_status),
                    DisconnectReason::from_u8(disconnect_reason),
                ) {
                    (Some(connection_status), Some(disconnect_reason)) => {
                        Event::ConnectionStatusChanged {
                            conn_id,
                            connection_status,
                            disconnect_reason,
                        }
                    },
                    _ => Event::CorruptEvent,
                },
                _ => Event::CorruptEvent,
            },
            Some(OpCode::ConnectionChannelRemoved) => match (r.read_u32(), r.read_u8()) {
                (Some(conn_id), Some(removed_reason)) => match RemovedReason::from_u8(
                    removed_reason,
                ) {
                    Some(removed_reason) => Event::ConnectionChannelRemoved {
                        conn_id,
                        removed_reason,
                    },
                    None => Event::CorruptEvent,
                },
                _ => Event::CorruptEvent,
            },
            Some(OpCode::ButtonUpOrDown) => read_button(OpCode::ButtonUpOrDown, &mut r),
            Some(OpCode::ButtonClickOrHold) => read_button(OpCode::ButtonClickOrHold, &mut r),
            Some(OpCode::ButtonSingleOrDoubleClick) => read_button(
                OpCode::ButtonSingleOrDoubleClick,
                &mut r,
            ),
            Some(OpCode::ButtonSingleOrDoubleClickOrHold) => read_button(
                OpCode::ButtonSingleOrDoubleClickOrHold,
                &mut r,
            ),
            Some(OpCode::NewVerifiedButton) => match r.read_bdaddr() {
                Some(bd_addr) => Event::NewVerifiedButton { bd_addr },
                None => Event::CorruptEvent,
            },
            Some(OpCode::GetInfoResponse) => read_info(&mut r),
            Some(OpCode::NoSpaceForNewConnection) => match r.read_u8() {
                Some(max_concurrently_connected_buttons) => Event::NoSpaceForNewConnection {
                    max_concurrently_connected_buttons,
                },
                None => Event::CorruptEvent,
            },
            Some(OpCode::GotSpaceForNewConnection) => match r.read_u8() {
                Some(max_concurrently_connected_buttons) => Event::GotSpaceForNewConnection {
                    max_concurrently_connected_buttons,
                },
                None => Event::CorruptEvent,
            },
            Some(OpCode::BluetoothControllerStateChange) => match r.read_u8() {
                Some(state) => match BluetoothControllerState::from_u8(state) {
                    Some(state) => Event::BluetoothControllerStateChange { state },
                    None => Event::CorruptEvent,
                },
                None => Event::CorruptEvent,
            },
            Some(OpCode::PingResponse) => match r.read_u32() {
                Some(ping_id) => Event::PingResponse { ping_id },
                None => Event::CorruptEvent,
            },
            Some(OpCode::GetButtonInfoResponse) => read_button_info(&mut r),
            Some(OpCode::ScanWizardFoundPrivateButton) => match r.read_u32() {
                Some(scan_wizard_id) => Event::ScanWizardFoundPrivateButton { scan_wizard_id },
                None => Event::CorruptEvent,
            },
            Some(OpCode::ScanWizardFoundPublicButton) => match (
                r.read_u32(),
                r.read_bdaddr(),
                r.read_string(),
            ) {
                (Some(scan_wizard_id), Some(bd_addr), Some(name)) => {
                    Event::ScanWizardFoundPublicButton { scan_wizard_id, bd_addr, name }
                },
                _ => Event::CorruptEvent,
            },
            Some(OpCode::ScanWizardButtonConnected) => match r.read_u32() {
                Some(scan_wizard_id) => Event::ScanWizardButtonConnected { scan_wizard_id },
                None => Event::CorruptEvent,
            },
            Some(OpCode::ScanWizardCompleted) => match (r.read_u32(), r.read_u8()) {
                (Some(scan_wizard_id), Some(result)) => match ScanWizardResult::from_u8(result) {
                    Some(result) => Event::ScanWizardCompleted { scan_wizard_id, result },
                    None => Event::CorruptEvent,
                },
                _ => Event::CorruptEvent,
            },
            Some(OpCode::ButtonDeleted) => match (r.read_bdaddr(), r.read_bool()) {
                (Some(bd_addr), Some(deleted_by_this_client)) => Event::ButtonDeleted {
                    bd_addr,
                    deleted_by_this_client,
                },
                _ => Event::CorruptEvent,
            },
            Some(OpCode::BatteryStatus) => match (r.read_u32(), r.read_i8(), r.read_u64()) {
                (Some(listener_id), Some(battery_percentage), Some(timestamp)) => {
                    Event::BatteryStatus { listener_id, battery_percentage, timestamp }
                },
                _ => Event::CorruptEvent,
            },
            None => Event::CorruptEvent,
        }
    }
}

} // verus!

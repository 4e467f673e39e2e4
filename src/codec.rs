//! The primitive field codec: fixed-width little-endian integers, booleans,
//! device addresses, identifiers and length-prefixed strings.
//!
//! The spec functions here say what each field is on the wire; the writers
//! of the command encoder and the `FieldReader` used by the event decoder are
//! proved against them.

use vstd::prelude::*;
use vstd::utf8::{decode_utf8, valid_utf8};

verus! {

// ----- integers -----

/// Little-endian value of the two bytes at index `i`.
pub open spec fn le_u16(b: Seq<u8>, i: int) -> int {
    b[i] + 256 * b[i + 1]
}

/// Little-endian value of the four bytes at index `i`, as two 16-bit halves.
pub open spec fn le_u32(b: Seq<u8>, i: int) -> int {
    le_u16(b, i) + 65536 * le_u16(b, i + 2)
}

/// Little-endian value of the eight bytes at index `i`, as two 32-bit halves.
pub open spec fn le_u64(b: Seq<u8>, i: int) -> int {
    le_u32(b, i) + 4294967296 * le_u32(b, i + 4)
}

/// Wire bytes of a 16-bit value, least significant first.
pub open spec fn u16_bytes(v: u16) -> Seq<u8> {
    seq![(v % 256) as u8, (v / 256) as u8]
}

/// Wire bytes of a signed 16-bit value: those of its two's-complement bits.
pub open spec fn i16_bytes(v: i16) -> Seq<u8> {
    u16_bytes(v as u16)
}

/// Wire bytes of a 32-bit value: the low half, then the high half.
pub open spec fn u32_bytes(v: u32) -> Seq<u8> {
    u16_bytes((v % 65536) as u16) + u16_bytes((v / 65536) as u16)
}

// ----- hex text -----

/// A lowercase hexadecimal digit.
pub open spec fn is_hex_digit(c: char) -> bool {
    ('0' <= c && c <= '9') || ('a' <= c && c <= 'f')
}

/// The number that a hex digit stands for.
pub open spec fn hex_value(c: char) -> int {
    if '0' <= c && c <= '9' {
        c as int - '0' as int
    } else {
        c as int - 'a' as int + 10
    }
}

/// The lowercase hex digit of a number below 16.
pub open spec fn hex_char(n: int) -> char {
    if n < 10 {
        ('0' as int + n) as char
    } else {
        ('a' as int + (n - 10)) as char
    }
}

/// The two hex digits of a byte, high nibble first.
pub open spec fn byte_hex(b: u8) -> Seq<char> {
    seq![hex_char(b as int / 16), hex_char(b as int % 16)]
}

/// The hex digits of a byte sequence, two per byte, in order.
pub open spec fn hex_text(b: Seq<u8>) -> Seq<char>
    decreases b.len(),
{
    if b.len() == 0 {
        Seq::empty()
    } else {
        hex_text(b.drop_last()) + byte_hex(b.last())
    }
}

// ----- device addresses -----

/// Colon-separated text of a device address whose six wire octets are `w`;
/// the wire carries the last octet of the text first.
pub open spec fn address_text(w: Seq<u8>) -> Seq<char> {
    byte_hex(w[5]) + seq![':'] + byte_hex(w[4]) + seq![':'] + byte_hex(w[3]) + seq![':']
        + byte_hex(w[2]) + seq![':'] + byte_hex(w[1]) + seq![':'] + byte_hex(w[0])
}

/// A well-formed address: six pairs of lowercase hex digits joined by colons.
pub open spec fn is_canonical_address(s: Seq<char>) -> bool {
    &&& s.len() == 17
    &&& forall|i: int|
        0 <= i < 17 ==> if i % 3 == 2 {
            s[i] == ':'
        } else {
            is_hex_digit(#[trigger] s[i])
        }
}

/// The value of the `k`-th octet of an address text.
pub open spec fn octet_value(s: Seq<char>, k: int) -> int {
    16 * hex_value(s[3 * k]) + hex_value(s[3 * k + 1])
}

/// Wire bytes of an address text: its six octets, last one first.
pub open spec fn address_wire(s: Seq<char>) -> Seq<u8> {
    seq![
        octet_value(s, 5) as u8,
        octet_value(s, 4) as u8,
        octet_value(s, 3) as u8,
        octet_value(s, 2) as u8,
        octet_value(s, 1) as u8,
        octet_value(s, 0) as u8,
    ]
}

/// A hex digit and its value map to each other.
proof fn lemma_hex_digit(c: char)
    requires
        is_hex_digit(c),
    ensures
        0 <= hex_value(c) < 16,
        hex_char(hex_value(c)) == c,
{
}

/// A nibble's digit is a hex digit that stands for the nibble.
proof fn lemma_hex_char(n: int)
    requires
        0 <= n < 16,
    ensures
        is_hex_digit(hex_char(n)),
        hex_value(hex_char(n)) == n,
{
}

/// Splitting a byte into nibbles and joining them gives the byte back, and
/// joining two nibbles then splitting gives the nibbles back.
proof fn lemma_nibbles(hi: int, lo: int)
    requires
        0 <= hi < 16,
        0 <= lo < 16,
    ensures
        (16 * hi + lo) / 16 == hi,
        (16 * hi + lo) % 16 == lo,
{
    assert((16 * hi + lo) / 16 == hi && (16 * hi + lo) % 16 == lo) by (nonlinear_arith)
        requires
            0 <= hi < 16,
            0 <= lo < 16,
    ;
}

/// The `k`-th octet of a canonical address text, as a byte, prints as the
/// text's two digits.
proof fn lemma_octet_text(s: Seq<char>, k: int)
    requires
        is_canonical_address(s),
        0 <= k < 6,
    ensures
        byte_hex(octet_value(s, k) as u8) == s.subrange(3 * k, 3 * k + 2),
{
    assert(is_hex_digit(s[3 * k]));
    assert(is_hex_digit(s[3 * k + 1]));
    lemma_hex_digit(s[3 * k]);
    lemma_hex_digit(s[3 * k + 1]);
    lemma_nibbles(hex_value(s[3 * k]), hex_value(s[3 * k + 1]));
    assert(byte_hex(octet_value(s, k) as u8) =~= s.subrange(3 * k, 3 * k + 2));
}

/// A canonical address text, encoded to its six wire octets and decoded
/// again, is the same text.
pub proof fn lemma_address_round_trip(s: Seq<char>)
    requires
        is_canonical_address(s),
    ensures
        address_wire(s).len() == 6,
        address_text(address_wire(s)) == s,
{
    lemma_octet_text(s, 0);
    lemma_octet_text(s, 1);
    lemma_octet_text(s, 2);
    lemma_octet_text(s, 3);
    lemma_octet_text(s, 4);
    lemma_octet_text(s, 5);
    assert(s[2] == ':' && s[5] == ':' && s[8] == ':' && s[11] == ':' && s[14] == ':');
    assert(address_text(address_wire(s)) =~= s);
}

/// A byte's two hex digits are hex digits that read back as the byte.
proof fn lemma_byte_hex(b: u8)
    ensures
        is_hex_digit(byte_hex(b)[0]),
        is_hex_digit(byte_hex(b)[1]),
        16 * hex_value(byte_hex(b)[0]) + hex_value(byte_hex(b)[1]) == b,
{
    lemma_hex_char(b as int / 16);
    lemma_hex_char(b as int % 16);
}

/// Six wire octets, decoded to address text and encoded again, are the same
/// octets; the text is canonical.
pub proof fn lemma_address_wire_round_trip(w: Seq<u8>)
    requires
        w.len() == 6,
    ensures
        is_canonical_address(address_text(w)),
        address_wire(address_text(w)) == w,
{
    let t = address_text(w);
    lemma_byte_hex(w[0]);
    lemma_byte_hex(w[1]);
    lemma_byte_hex(w[2]);
    lemma_byte_hex(w[3]);
    lemma_byte_hex(w[4]);
    lemma_byte_hex(w[5]);
    assert forall|i: int| 0 <= i < 17 implies if i % 3 == 2 {
        t[i] == ':'
    } else {
        is_hex_digit(#[trigger] t[i])
    } by {
        assert(t[0] == byte_hex(w[5])[0] && t[1] == byte_hex(w[5])[1]);
        assert(t[3] == byte_hex(w[4])[0] && t[4] == byte_hex(w[4])[1]);
        assert(t[6] == byte_hex(w[3])[0] && t[7] == byte_hex(w[3])[1]);
        assert(t[9] == byte_hex(w[2])[0] && t[10] == byte_hex(w[2])[1]);
        assert(t[12] == byte_hex(w[1])[0] && t[13] == byte_hex(w[1])[1]);
        assert(t[15] == byte_hex(w[0])[0] && t[16] == byte_hex(w[0])[1]);
    }
    assert(address_wire(t) =~= w);
}

/// A 16-bit value written little-endian reads back unchanged.
pub proof fn lemma_u16_round_trip(v: u16)
    ensures
        u16_bytes(v).len() == 2,
        le_u16(u16_bytes(v), 0) == v,
{
}

/// A signed 16-bit value written little-endian reads back unchanged.
pub proof fn lemma_i16_round_trip(v: i16)
    ensures
        i16_bytes(v).len() == 2,
        (le_u16(i16_bytes(v), 0) as u16) as i16 == v,
{
    lemma_u16_round_trip(v as u16);
    assert(((v as u16) as i16) == v) by (bit_vector);
}

/// A 32-bit value written little-endian reads back unchanged.
pub proof fn lemma_u32_round_trip(v: u32)
    ensures
        u32_bytes(v).len() == 4,
        le_u32(u32_bytes(v), 0) == v,
{
    lemma_u16_round_trip((v % 65536) as u16);
    lemma_u16_round_trip((v / 65536) as u16);
}

// ----- identifiers -----

/// Sixteen zero bytes: the identifier that stands for "absent".
pub open spec fn is_absent_identifier(b: Seq<u8>) -> bool {
    forall|i: int| 0 <= i < b.len() ==> b[i] == 0
}

/// What an identifier field of sixteen bytes decodes to.
pub open spec fn identifier_text(b: Seq<u8>) -> Option<Seq<char>> {
    if is_absent_identifier(b) {
        None
    } else {
        Some(hex_text(b))
    }
}

// ----- strings -----

/// The text that a byte sequence encodes in UTF-8, or `None` when it is not
/// valid UTF-8.
pub open spec fn utf8_text(b: Seq<u8>) -> Option<Seq<char>> {
    if valid_utf8(b) {
        Some(decode_utf8(b))
    } else {
        None
    }
}

/// The string field at index `i` is all there: its length byte `n` and the
/// `n` bytes after it.
pub open spec fn string_present(b: Seq<u8>, i: int) -> bool {
    0 <= i < b.len() && i + 1 + b[i] <= b.len()
}

/// The string field at index `i`: a length byte `n`, then `n` bytes of UTF-8;
/// `None` when they are not all there or are not valid UTF-8.
pub open spec fn string_at(b: Seq<u8>, i: int) -> Option<Seq<char>> {
    if string_present(b, i) {
        utf8_text(b.subrange(i + 1, i + 1 + b[i]))
    } else {
        None
    }
}

/// Where reading the string field at `i` leaves off: after its bytes, or at
/// the end of `b` when they are not all there.
pub open spec fn string_end(b: Seq<u8>, i: int) -> int {
    if string_present(b, i) {
        i + 1 + b[i]
    } else {
        b.len() as int
    }
}

/// The view of an optional string.
pub open spec fn text_of(s: Option<String>) -> Option<Seq<char>> {
    match s {
        Some(t) => Some(t@),
        None => None,
    }
}

/// Relies on `String::from_utf8`: `Ok` exactly for valid UTF-8, holding the
/// characters that the bytes encode.
#[verifier::external_body]
fn utf8_string(bytes: Vec<u8>) -> (r: Option<String>)
    ensures
        r is Some <==> valid_utf8(bytes@),
        r matches Some(t) ==> t@ == decode_utf8(bytes@),
{
    String::from_utf8(bytes).ok()
}

/// Relies on `String::push`: appends one character.
#[verifier::external_body]
fn push_char(s: &mut String, c: char)
    ensures
        final(s)@ == old(s)@.push(c),
{
    s.push(c)
}

/// The lowercase hex digit of a nibble.
pub fn u8_to_hex(value: u8) -> (r: char)
    requires
        value < 16,
    ensures
        r == hex_char(value as int),
{
    if value < 10 {
        (value + 48) as char
    } else {
        (value - 10 + 97) as char
    }
}

/// The value of a lowercase hex digit; `None` for any other character.
fn hex_digit_value(c: char) -> (r: Option<u8>)
    ensures
        r is Some <==> is_hex_digit(c),
        r matches Some(v) ==> v == hex_value(c) && v < 16,
{
    if '0' <= c && c <= '9' {
        Some(((c as u32) - 48) as u8)
    } else if 'a' <= c && c <= 'f' {
        Some(((c as u32) - 87) as u8)
    } else {
        None
    }
}

/// The byte written by two hex digits, high nibble first.
pub fn hex_to_u8(upper: char, lower: char) -> (r: Option<u8>)
    ensures
        r is Some <==> is_hex_digit(upper) && is_hex_digit(lower),
        r matches Some(v) ==> v == 16 * hex_value(upper) + hex_value(lower),
{
    match (hex_digit_value(upper), hex_digit_value(lower)) {
        (Some(hi), Some(lo)) => Some(hi * 16 + lo),
        _ => None,
    }
}

/// Appends the two hex digits of a byte.
fn push_hex(out: &mut String, b: u8)
    ensures
        final(out)@ == old(out)@ + byte_hex(b),
{
    let ghost start = out@;
    push_char(out, u8_to_hex(b / 16));
    push_char(out, u8_to_hex(b % 16));
    assert(out@ =~= start + byte_hex(b));
}

// ----- reading fields -----

/// A cursor over received bytes that reads fields in order.
///
/// A read that finds too few bytes yields `None` and moves the cursor to the
/// end, so that every later read yields `None` as well.
pub struct FieldReader {
    bytes: Vec<u8>,
    pos: usize,
}

impl FieldReader {
    /// The bytes being read.
    pub closed spec fn bytes(&self) -> Seq<u8> {
        self.bytes@
    }

    /// Index of the next byte to read.
    pub closed spec fn pos(&self) -> int {
        self.pos as int
    }

    /// The cursor stands within the bytes.
    pub open spec fn wf(&self) -> bool {
        0 <= self.pos() <= self.bytes().len()
    }

    /// At least `n` bytes remain.
    pub open spec fn fits(&self, n: int) -> bool {
        self.pos() + n <= self.bytes().len()
    }

    /// `self` is `prev` after a read of `n` bytes: past them, or at the end
    /// when they were not all there.
    pub open spec fn moved_by(&self, prev: &FieldReader, n: int) -> bool {
        &&& self.wf()
        &&& self.bytes() == prev.bytes()
        &&& self.pos() == if prev.fits(n) {
            prev.pos() + n
        } else {
            prev.bytes().len() as int
        }
    }

    /// A cursor at the first of `bytes`.
    pub fn new(bytes: Vec<u8>) -> (r: FieldReader)
        ensures
            r.wf(),
            r.bytes() == bytes@,
            r.pos() == 0,
    {
        FieldReader { bytes, pos: 0 }
    }

    /// One byte.
    pub fn read_u8(&mut self) -> (r: Option<u8>)
        requires
            old(self).wf(),
        ensures
            final(self).moved_by(old(self), 1),
            r == if old(self).fits(1) {
                Some(old(self).bytes()[old(self).pos()])
            } else {
                None
            },
    {
        if self.pos < self.bytes.len() {
            let b = self.bytes[self.pos];
            self.pos = self.pos + 1;
            Some(b)
        } else {
            None
        }
    }

    /// A little-endian 16-bit value.
    pub fn read_u16(&mut self) -> (r: Option<u16>)
        requires
            old(self).wf(),
        ensures
            final(self).moved_by(old(self), 2),
            r == if old(self).fits(2) {
                Some(le_u16(old(self).bytes(), old(self).pos()) as u16)
            } else {
                None
            },
    {
        let lower = self.read_u8();
        let upper = self.read_u8();
        match (lower, upper) {
            (Some(lo), Some(hi)) => Some(lo as u16 + (hi as u16) * 256),
            _ => None,
        }
    }

    /// A little-endian 32-bit value, read as two 16-bit halves.
    pub fn read_u32(&mut self) -> (r: Option<u32>)
        requires
            old(self).wf(),
        ensures
            final(self).moved_by(old(self), 4),
            r == if old(self).fits(4) {
                Some(le_u32(old(self).bytes(), old(self).pos()) as u32)
            } else {
                None
            },
    {
        let lower = self.read_u16();
        let upper = self.read_u16();
        match (lower, upper) {
            (Some(lo), Some(hi)) => Some(lo as u32 + (hi as u32) * 65536),
            _ => None,
        }
    }

    /// A little-endian 64-bit value, read as two 32-bit halves.
    pub fn read_u64(&mut self) -> (r: Option<u64>)
        requires
            old(self).wf(),
        ensures
            final(self).moved_by(old(self), 8),
            r == if old(self).fits(8) {
                Some(le_u64(old(self).bytes(), old(self).pos()) as u64)
            } else {
                None
            },
    {
        let lower = self.read_u32();
        let upper = self.read_u32();
        match (lower, upper) {
            (Some(lo), Some(hi)) => Some(lo as u64 + (hi as u64) * 4294967296),
            _ => None,
        }
    }

    /// One byte, as a signed value.
    pub fn read_i8(&mut self) -> (r: Option<i8>)
        requires
            old(self).wf(),
        ensures
            final(self).moved_by(old(self), 1),
            r == if old(self).fits(1) {
                Some(old(self).bytes()[old(self).pos()] as i8)
            } else {
                None
            },
    {
        match self.read_u8() {
            Some(v) => Some(v as i8),
            None => None,
        }
    }

    /// A little-endian 16-bit value, as a signed value.
    pub fn read_i16(&mut self) -> (r: Option<i16>)
        requires
            old(self).wf(),
        ensures
            final(self).moved_by(old(self), 2),
            r == if old(self).fits(2) {
                Some((le_u16(old(self).bytes(), old(self).pos()) as u16) as i16)
            } else {
                None
            },
    {
        match self.read_u16() {
            Some(v) => Some(v as i16),
            None => None,
        }
    }

    /// A little-endian 32-bit value, as a signed value.
    pub fn read_i32(&mut self) -> (r: Option<i32>)
        requires
            old(self).wf(),
        ensures
            final(self).moved_by(old(self), 4),
            r == if old(self).fits(4) {
                Some((le_u32(old(self).bytes(), old(self).pos()) as u32) as i32)
            } else {
                None
            },
    {
        match self.read_u32() {
            Some(v) => Some(v as i32),
            None => None,
        }
    }

    /// One byte, true when it is not zero.
    pub fn read_bool(&mut self) -> (r: Option<bool>)
        requires
            old(self).wf(),
        ensures
            final(self).moved_by(old(self), 1),
            r == if old(self).fits(1) {
                Some(old(self).bytes()[old(self).pos()] != 0)
            } else {
                None
            },
    {
        match self.read_u8() {
            Some(v) => Some(v != 0),
            None => None,
        }
    }

    /// A device address: six octets, last one first, returned as
    /// colon-separated lowercase hex text.
    pub fn read_bdaddr(&mut self) -> (r: Option<String>)
        requires
            old(self).wf(),
        ensures
            final(self).moved_by(old(self), 6),
            text_of(r) == if old(self).fits(6) {
                Some(
                    address_text(
                        old(self).bytes().subrange(old(self).pos(), old(self).pos() + 6),
                    ),
                )
            } else {
                None
            },
    {
        let ghost w = self.bytes().subrange(self.pos(), self.pos() + 6);
        let b0 = self.read_u8();
        let b1 = self.read_u8();
        let b2 = self.read_u8();
        let b3 = self.read_u8();
        let b4 = self.read_u8();
        let b5 = self.read_u8();
        match (b0, b1, b2, b3, b4, b5) {
            (Some(w0), Some(w1), Some(w2), Some(w3), Some(w4), Some(w5)) => {
                let mut out = String::new();
                push_hex(&mut out, w5);
                push_char(&mut out, ':');
                push_hex(&mut out, w4);
                push_char(&mut out, ':');
                push_hex(&mut out, w3);
                push_char(&mut out, ':');
                push_hex(&mut out, w2);
                push_char(&mut out, ':');
                push_hex(&mut out, w1);
                push_char(&mut out, ':');
                push_hex(&mut out, w0);
                assert(out@ =~= address_text(w));
                Some(out)
            },
            _ => None,
        }
    }

    /// A string field whose text may be absent: `None` when its length byte
    /// `n` or any of its `n` bytes is missing, `Some(None)` when the bytes are
    /// not valid UTF-8, else `Some(Some(text))`.
    pub fn read_optional_string(&mut self) -> (r: Option<Option<String>>)
        requires
            old(self).wf(),
        ensures
            final(self).wf(),
            final(self).bytes() == old(self).bytes(),
            final(self).pos() == string_end(old(self).bytes(), old(self).pos()),
            r is Some <==> string_present(old(self).bytes(), old(self).pos()),
            r matches Some(t) ==> text_of(t) == string_at(old(self).bytes(), old(self).pos()),
    {
        let ghost b = self.bytes();
        let ghost p = self.pos();
        match self.read_u8() {
            Some(len) => {
                let mut buf: Vec<u8> = Vec::new();
                let mut i: u8 = 0;
                while i < len
                    invariant
                        self.wf(),
                        self.bytes() == b,
                        b == old(self).bytes(),
                        p == old(self).pos(),
                        0 <= p,
                        p + 1 <= b.len(),
                        len == b[p],
                        i <= len,
                        self.pos() == p + 1 + i,
                        buf@ == b.subrange(p + 1, p + 1 + i),
                    decreases len - i,
                {
                    match self.read_u8() {
                        Some(v) => {
                            buf.push(v);
                            assert(buf@ =~= b.subrange(p + 1, p + 1 + i + 1));
                        },
                        None => {
                            return None;
                        },
                    }
                    i = i + 1;
                }
                assert(buf@ == b.subrange(p + 1, p + 1 + b[p]));
                Some(utf8_string(buf))
            },
            None => None,
        }
    }

    /// A string: a length byte `n`, then `n` bytes of UTF-8 text. `None`
    /// when the bytes are missing or are not valid UTF-8.
    pub fn read_string(&mut self) -> (r: Option<String>)
        requires
            old(self).wf(),
        ensures
            final(self).wf(),
            final(self).bytes() == old(self).bytes(),
            final(self).pos() == string_end(old(self).bytes(), old(self).pos()),
            text_of(r) == string_at(old(self).bytes(), old(self).pos()),
    {
        match self.read_optional_string() {
            Some(text) => text,
            None => None,
        }
    }

    /// An identifier: sixteen bytes, returned as 32 lowercase hex digits, or
    /// as `Some(None)` when all sixteen are zero ("absent").
    pub fn read_uuid(&mut self) -> (r: Option<Option<String>>)
        requires
            old(self).wf(),
        ensures
            final(self).moved_by(old(self), 16),
            r is Some <==> old(self).fits(16),
            r matches Some(t) ==> text_of(t) == identifier_text(
                old(self).bytes().subrange(old(self).pos(), old(self).pos() + 16),
            ),
    {
        let ghost b = self.bytes();
        let ghost p = self.pos();
        let mut out = String::new();
        let mut absent = true;
        let mut i: usize = 0;
        while i < 16
            invariant
                self.wf(),
                self.bytes() == b,
                i <= 16,
                b == old(self).bytes(),
                p == old(self).pos(),
                0 <= p,
                p + i <= b.len(),
                self.pos() == p + i,
                out@ == hex_text(b.subrange(p, p + i)),
                absent == is_absent_identifier(b.subrange(p, p + i)),
            decreases 16 - i,
        {
            let ghost before = b.subrange(p, p + i);
            match self.read_u8() {
                Some(v) => {
                    push_hex(&mut out, v);
                    absent = absent && v == 0;
                    let ghost after = b.subrange(p, p + i + 1);
                    assert(after.drop_last() =~= before);
                    assert(is_absent_identifier(after) == (is_absent_identifier(before) && v == 0))
                        by {
                        if is_absent_identifier(before) && v == 0 {
                            assert forall|j: int| 0 <= j < after.len() implies after[j] == 0 by {
                                if j < before.len() {
                                    assert(after[j] == before[j]);
                                }
                            }
                        }
                        if is_absent_identifier(after) {
                            assert forall|j: int| 0 <= j < before.len() implies before[j] == 0 by {
                                assert(after[j] == before[j]);
                            }
                            assert(after[after.len() - 1] == 0);
                        }
                    }
                },
                None => {
                    return None;
                },
            }
            i = i + 1;
        }
        if absent {
            Some(None)
        } else {
            Some(Some(out))
        }
    }
}

} // verus!

use flicbtn::codec::{hex_to_u8, u8_to_hex};
use flicbtn::FieldReader;

#[test]
fn reads_unsigned_integers_little_endian() {
    let mut r = FieldReader::new(vec![
        0xab, 0x34, 0x12, 0x78, 0x56, 0x34, 0x12, 0x08, 0x07, 0x06, 0x05, 0x04, 0x03, 0x02, 0x01,
    ]);
    assert_eq!(r.read_u8(), Some(0xab));
    assert_eq!(r.read_u16(), Some(0x1234));
    assert_eq!(r.read_u32(), Some(0x12345678));
    assert_eq!(r.read_u64(), Some(0x0102030405060708));
    assert_eq!(r.read_u8(), None);
}

#[test]
fn reads_signed_integers_as_twos_complement() {
    let mut r = FieldReader::new(vec![0xff, 0xfe, 0xff, 0x00, 0x00, 0x00, 0x80, 0x9c]);
    assert_eq!(r.read_i8(), Some(-1));
    assert_eq!(r.read_i16(), Some(-2));
    assert_eq!(r.read_i32(), Some(i32::MIN));
    assert_eq!(r.read_i8(), Some(-100));
}

#[test]
fn any_nonzero_byte_reads_as_true() {
    let mut r = FieldReader::new(vec![0, 1, 7, 0xff]);
    assert_eq!(r.read_bool(), Some(false));
    assert_eq!(r.read_bool(), Some(true));
    assert_eq!(r.read_bool(), Some(true));
    assert_eq!(r.read_bool(), Some(true));
    assert_eq!(r.read_bool(), None);
}

#[test]
fn short_read_yields_none_and_exhausts_the_reader() {
    let mut r = FieldReader::new(vec![1, 2, 3]);
    assert_eq!(r.read_u32(), None);
    assert_eq!(r.read_u8(), None);
    let mut empty = FieldReader::new(vec![]);
    assert_eq!(empty.read_u16(), None);
}

#[test]
fn address_octets_arrive_last_first() {
    let mut r = FieldReader::new(vec![0x55, 0xfa, 0x76, 0xda, 0xe4, 0x80]);
    assert_eq!(r.read_bdaddr(), Some("80:e4:da:76:fa:55".to_string()));
    let mut zero = FieldReader::new(vec![0, 0, 0, 0, 0, 0x0a]);
    assert_eq!(zero.read_bdaddr(), Some("0a:00:00:00:00:00".to_string()));
    let mut short = FieldReader::new(vec![1, 2, 3, 4, 5]);
    assert_eq!(short.read_bdaddr(), None);
}

#[test]
fn strings_are_length_prefixed_utf8() {
    let mut r = FieldReader::new(vec![3, b'a', b'b', b'c', 0, 2, 0xc3, 0xa9]);
    assert_eq!(r.read_string(), Some("abc".to_string()));
    assert_eq!(r.read_string(), Some(String::new()));
    assert_eq!(r.read_string(), Some("é".to_string()));
    assert_eq!(r.read_string(), None);
}

#[test]
fn string_with_missing_bytes_is_none() {
    let mut r = FieldReader::new(vec![5, b'a', b'b']);
    assert_eq!(r.read_string(), None);
    assert_eq!(r.read_u8(), None);
}

#[test]
fn string_with_invalid_utf8_is_none_and_is_skipped() {
    let mut r = FieldReader::new(vec![2, 0xff, 0xfe, 9]);
    assert_eq!(r.read_string(), None);
    assert_eq!(r.read_u8(), Some(9));
}

#[test]
fn all_zero_identifier_is_absent() {
    let mut r = FieldReader::new(vec![0; 16]);
    assert_eq!(r.read_uuid(), Some(None));
}

#[test]
fn identifier_reads_as_hex_digits() {
    let mut bytes = vec![0u8; 16];
    bytes[0] = 0x01;
    bytes[15] = 0xfe;
    let mut r = FieldReader::new(bytes);
    assert_eq!(
        r.read_uuid(),
        Some(Some("010000000000000000000000000000fe".to_string()))
    );
    let mut short = FieldReader::new(vec![0; 15]);
    assert_eq!(short.read_uuid(), None);
}

#[test]
fn hex_digit_pairs() {
    assert_eq!(hex_to_u8('a', 'f'), Some(0xaf));
    assert_eq!(hex_to_u8('0', '9'), Some(0x09));
    assert_eq!(hex_to_u8('f', 'f'), Some(0xff));
    assert_eq!(hex_to_u8('A', '0'), None);
    assert_eq!(hex_to_u8('0', 'g'), None);
    assert_eq!(u8_to_hex(0), '0');
    assert_eq!(u8_to_hex(9), '9');
    assert_eq!(u8_to_hex(11), 'b');
    assert_eq!(u8_to_hex(15), 'f');
}

#[test]
fn optional_string_tells_missing_from_invalid() {
    let mut r = FieldReader::new(vec![2, b'h', b'i', 1, 0xff, 4, b'x']);
    assert_eq!(r.read_optional_string(), Some(Some("hi".to_string())));
    assert_eq!(r.read_optional_string(), Some(None));
    assert_eq!(r.read_optional_string(), None);
    assert_eq!(r.read_optional_string(), None);
}

use tiki_proto::common::AuthMechs;
use tiki_proto::serialize::{Cursor, Serialize};
use tiki_proto::Error;

fn encode<T: Serialize>(v: &T) -> Vec<u8> {
    let mut w = Vec::new();
    v.serialize(&mut w);
    w
}

#[test]
fn integers_are_big_endian() {
    assert_eq!(encode(&0xABu8), vec![0xAB]);
    assert_eq!(encode(&-2i8), vec![0xFE]);
    assert_eq!(encode(&0x1234u16), vec![0x12, 0x34]);
    assert_eq!(encode(&-2i16), vec![0xFF, 0xFE]);
    assert_eq!(encode(&0x4F457403u32), vec![0x4F, 0x45, 0x74, 0x03]);
    assert_eq!(encode(&-1i32), vec![0xFF; 4]);
    assert_eq!(
        encode(&0x0102030405060708u64),
        vec![1, 2, 3, 4, 5, 6, 7, 8]
    );
    assert_eq!(encode(&i64::MIN), vec![0x80, 0, 0, 0, 0, 0, 0, 0]);
}

#[test]
fn integers_read_back() {
    let bytes = [0x12, 0x34, 0xFF, 0xFE, 0x80, 0, 0, 0, 0, 0, 0, 0, 9];
    let mut r = Cursor::new(&bytes);
    assert_eq!(u16::deserialize(&mut r).ok(), Some(0x1234));
    assert_eq!(i16::deserialize(&mut r).ok(), Some(-2));
    assert_eq!(i64::deserialize(&mut r).ok(), Some(i64::MIN));
    assert_eq!(r.remaining(), 1);
    assert_eq!(u8::deserialize(&mut r).ok(), Some(9));
    assert_eq!(r.remaining(), 0);
}

#[test]
fn integers_round_trip() {
    for v in [0u32, 1, 0xFF, 0x1_0000, u32::MAX] {
        let bytes = encode(&v);
        assert_eq!(u32::deserialize(&mut Cursor::new(&bytes)).ok(), Some(v));
    }
    for v in [i32::MIN, -1, 0, 1, i32::MAX] {
        let bytes = encode(&v);
        assert_eq!(i32::deserialize(&mut Cursor::new(&bytes)).ok(), Some(v));
    }
    for v in [0u64, u64::MAX, 0x8000_0000_0000_0001] {
        let bytes = encode(&v);
        assert_eq!(u64::deserialize(&mut Cursor::new(&bytes)).ok(), Some(v));
    }
}

#[test]
fn truncated_integer_is_eof() {
    let bytes = [0x12u8, 0x34, 0x56];
    assert!(matches!(
        u32::deserialize(&mut Cursor::new(&bytes)),
        Err(Error::UnexpectedEof)
    ));
    assert!(matches!(
        u8::deserialize(&mut Cursor::new(&[])),
        Err(Error::UnexpectedEof)
    ));
}

#[test]
fn text_is_length_prefixed_utf8() {
    assert_eq!(encode(&"hi".to_string()), vec![0, 2, b'h', b'i']);
    assert_eq!(encode(&String::new()), vec![0, 0]);
    // Two-byte UTF-8 character: the prefix counts bytes, not characters.
    assert_eq!(encode(&"é".to_string()), vec![0, 2, 0xC3, 0xA9]);
}

#[test]
fn text_round_trip() {
    for s in ["", "player", "ünïcödé ✓", "日本語"] {
        let bytes = encode(&s.to_string());
        let mut r = Cursor::new(&bytes);
        let back = String::deserialize(&mut r).ok();
        assert_eq!(back.as_deref(), Some(s));
        assert_eq!(r.remaining(), 0);
    }
}

#[test]
fn invalid_utf8_carries_raw_bytes() {
    let bytes = [0u8, 3, b'a', 0xFF, 0xFE, 0x42];
    match String::deserialize(&mut Cursor::new(&bytes)) {
        Err(Error::NonUnicodeString(raw)) => assert_eq!(raw, vec![b'a', 0xFF, 0xFE]),
        _ => panic!("expected NonUnicodeString"),
    }
}

#[test]
fn text_shorter_than_its_prefix_is_eof() {
    let bytes = [0u8, 5, b'a', b'b'];
    assert!(matches!(
        String::deserialize(&mut Cursor::new(&bytes)),
        Err(Error::UnexpectedEof)
    ));
}

#[test]
fn auth_mechs_truncate_unknown_flags() {
    let m = AuthMechs::from_bits_truncate(0xFFFF_FFFF);
    assert_eq!(m.bits(), 7);
    assert!(m.contains(AuthMechs::srp()));
    let legacy = AuthMechs::legacy();
    assert!(!legacy.contains(AuthMechs::first_srp()));
    assert_eq!(legacy.union(AuthMechs::first_srp()).bits(), 5);
    let bytes = encode(&AuthMechs::srp());
    assert_eq!(bytes, vec![0, 0, 0, 2]);
    let read = AuthMechs::deserialize(&mut Cursor::new(&[0xF0, 0, 0, 0x0B])).ok();
    assert_eq!(read.map(|m| m.bits()), Some(3));
}

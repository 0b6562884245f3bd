use rivers::bytes::{FromBytes, ToBytes};
use rivers::serde::{deserialize, deserialize_reporting, serialize};

#[test]
fn u8_from_empty_bytes_is_none() {
    assert_eq!(u8::from_bytes(&[]), None);
}

#[test]
fn u8_from_bytes_takes_first_byte() {
    assert_eq!(u8::from_bytes(&[7, 9, 11]), Some(7));
}

#[test]
fn u8_to_bytes_is_one_byte() {
    assert_eq!(200u8.to_bytes(), vec![200]);
}

#[test]
fn u8_round_trip() {
    for x in [0u8, 1, 127, 255] {
        assert_eq!(u8::from_bytes(&x.to_bytes()), Some(x));
    }
}

#[test]
fn u16_to_bytes_is_little_endian() {
    assert_eq!(0x1234u16.to_bytes(), vec![0x34, 0x12]);
    assert_eq!(0u16.to_bytes(), vec![0, 0]);
    assert_eq!(0xFFFFu16.to_bytes(), vec![0xFF, 0xFF]);
    assert_eq!(256u16.to_bytes(), vec![0, 1]);
}

#[test]
fn serialize_present_value() {
    let s = |x: &u16| x.to_bytes();
    assert_eq!(serialize(&Some(0x0102u16), &s), Some(vec![2, 1]));
}

#[test]
fn serialize_missing_value() {
    let s = |x: &u16| x.to_bytes();
    assert_eq!(serialize(&None, &s), None);
}

fn parse_byte(b: &[u8]) -> Result<u8, String> {
    u8::from_bytes(b).ok_or_else(|| "empty".to_string())
}

#[test]
fn deserialize_missing_data() {
    assert_eq!(deserialize(None, &parse_byte), None);
}

#[test]
fn deserialize_good_data() {
    assert_eq!(deserialize(Some(&[42u8, 1][..]), &parse_byte), Some(42));
}

#[test]
fn deserialize_bad_data_gives_none() {
    assert_eq!(deserialize(Some(&[][..]), &parse_byte), None);
}

#[test]
fn deserialize_reporting_keeps_the_explanation() {
    assert_eq!(deserialize_reporting(None, &parse_byte), Ok(None));
    assert_eq!(deserialize_reporting(Some(&[5u8][..]), &parse_byte), Ok(Some(5)));
    assert_eq!(
        deserialize_reporting(Some(&[][..]), &parse_byte),
        Err("empty".to_string())
    );
}

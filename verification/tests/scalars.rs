//! Scalar values pass straight through to the primitive tag codec: each test
//! checks the exact canonical bytes.

use mpser::serializer::Serializer;

fn fresh() -> Serializer {
    Serializer::new(Vec::new())
}

#[test]
fn bool_true_is_one_tag_byte() {
    let mut s = fresh();
    s.serialize_bool(true).unwrap();
    assert_eq!(s.into_writer(), vec![0xc3]);
}

#[test]
fn bool_false_is_one_tag_byte() {
    let mut s = fresh();
    s.serialize_bool(false).unwrap();
    assert_eq!(s.into_writer(), vec![0xc2]);
}

#[test]
fn small_u8_is_positive_fixint() {
    let mut s = fresh();
    s.serialize_u8(5).unwrap();
    assert_eq!(s.into_writer(), vec![0x05]);
}

#[test]
fn u8_boundary_127_stays_fixint() {
    let mut s = fresh();
    s.serialize_u8(127).unwrap();
    assert_eq!(s.into_writer(), vec![0x7f]);
}

#[test]
fn u8_boundary_128_takes_marker() {
    let mut s = fresh();
    s.serialize_u8(128).unwrap();
    assert_eq!(s.into_writer(), vec![0xcc, 0x80]);
}

#[test]
fn u16_picks_smallest_width() {
    let mut s = fresh();
    s.serialize_u16(256).unwrap();
    assert_eq!(s.into_writer(), vec![0xcd, 0x01, 0x00]);
}

#[test]
fn u32_above_u16_range_is_five_bytes() {
    let mut s = fresh();
    s.serialize_u32(65536).unwrap();
    assert_eq!(s.into_writer(), vec![0xce, 0x00, 0x01, 0x00, 0x00]);
}

#[test]
fn u64_above_u32_range_is_nine_bytes() {
    let mut s = fresh();
    s.serialize_u64(4294967296).unwrap();
    assert_eq!(
        s.into_writer(),
        vec![0xcf, 0x00, 0x00, 0x00, 0x01, 0x00, 0x00, 0x00, 0x00]
    );
}

#[test]
fn small_negative_is_negative_fixint() {
    let mut s = fresh();
    s.serialize_i8(-1).unwrap();
    assert_eq!(s.into_writer(), vec![0xff]);
}

#[test]
fn i8_boundary_minus_32_stays_fixint() {
    let mut s = fresh();
    s.serialize_i8(-32).unwrap();
    assert_eq!(s.into_writer(), vec![0xe0]);
}

#[test]
fn i8_boundary_minus_33_takes_marker() {
    let mut s = fresh();
    s.serialize_i8(-33).unwrap();
    assert_eq!(s.into_writer(), vec![0xd0, 0xdf]);
}

#[test]
fn i16_below_i8_range_is_three_bytes() {
    let mut s = fresh();
    s.serialize_i16(-129).unwrap();
    assert_eq!(s.into_writer(), vec![0xd1, 0xff, 0x7f]);
}

#[test]
fn i32_below_i16_range_is_five_bytes() {
    let mut s = fresh();
    s.serialize_i32(-40000).unwrap();
    assert_eq!(s.into_writer(), vec![0xd2, 0xff, 0xff, 0x63, 0xc0]);
}

#[test]
fn i64_below_i32_range_is_nine_bytes() {
    let mut s = fresh();
    s.serialize_i64(-4294967296).unwrap();
    assert_eq!(
        s.into_writer(),
        vec![0xd3, 0xff, 0xff, 0xff, 0xff, 0x00, 0x00, 0x00, 0x00]
    );
}

#[test]
fn positive_signed_takes_unsigned_form() {
    let mut s = fresh();
    s.serialize_i64(200).unwrap();
    assert_eq!(s.into_writer(), vec![0xcc, 0xc8]);
}

#[test]
fn ascii_char_is_one_char_string() {
    let mut s = fresh();
    s.serialize_char('A').unwrap();
    assert_eq!(s.into_writer(), vec![0xa1, 0x41]);
}

#[test]
fn two_byte_char_keeps_its_utf8_form() {
    let mut s = fresh();
    s.serialize_char('\u{e9}').unwrap();
    assert_eq!(s.into_writer(), vec![0xa2, 0xc3, 0xa9]);
}

#[test]
fn short_str_is_fixstr() {
    let mut s = fresh();
    s.serialize_str("hi").unwrap();
    assert_eq!(s.into_writer(), vec![0xa2, 0x68, 0x69]);
}

#[test]
fn empty_str_is_bare_fixstr_header() {
    let mut s = fresh();
    s.serialize_str("").unwrap();
    assert_eq!(s.into_writer(), vec![0xa0]);
}

#[test]
fn str_of_32_bytes_takes_str8_header() {
    let text = "abcdefghijklmnopqrstuvwxyz012345";
    let mut s = fresh();
    s.serialize_str(text).unwrap();
    let mut expected = vec![0xd9, 0x20];
    expected.extend_from_slice(text.as_bytes());
    assert_eq!(s.into_writer(), expected);
}

#[test]
fn bytes_take_bin8_header() {
    let mut s = fresh();
    s.serialize_bytes(&[1, 2, 3]).unwrap();
    assert_eq!(s.into_writer(), vec![0xc4, 0x03, 0x01, 0x02, 0x03]);
}

#[test]
fn none_is_the_nil_byte() {
    let mut s = fresh();
    s.serialize_none().unwrap();
    assert_eq!(s.into_writer(), vec![0xc0]);
}

#[test]
fn unit_matches_none_exactly() {
    let mut a = fresh();
    a.serialize_unit().unwrap();
    let mut b = fresh();
    b.serialize_none().unwrap();
    let unit_bytes = a.into_writer();
    assert_eq!(unit_bytes, b.into_writer());
    assert_eq!(unit_bytes, vec![0xc0]);
}

#[test]
fn some_adds_no_wrapper() {
    let mut s = fresh();
    s.serialize_some().unwrap();
    s.serialize_u8(7).unwrap();
    assert_eq!(s.into_writer(), vec![0x07]);
}

#[test]
fn new_keeps_bytes_already_in_the_sink() {
    let mut s = Serializer::new(vec![0x2a]);
    s.serialize_bool(true).unwrap();
    assert_eq!(s.into_writer(), vec![0x2a, 0xc3]);
}

#[test]
fn write_raw_appends_verbatim() {
    let mut s = fresh();
    s.write_raw(&[0xca, 0x40, 0x48, 0xf5, 0xc3]);
    assert_eq!(s.into_writer(), vec![0xca, 0x40, 0x48, 0xf5, 0xc3]);
}

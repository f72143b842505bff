//! Container framing: the two sequence/map paths, the header counts, and the
//! framing-free record rule, all checked against literal bytes.

use mpser::serializer::ser_map::SerializeMap;
use mpser::serializer::ser_seq::SerializeSeq;
use mpser::serializer::Serializer;

fn fresh() -> Serializer {
    Serializer::new(Vec::new())
}

#[test]
fn known_length_seq_streams_behind_header() {
    let mut s = fresh();
    let framer = s.serialize_seq(Some(3)).unwrap();
    s.serialize_u8(1).unwrap();
    s.serialize_u8(2).unwrap();
    s.serialize_u8(3).unwrap();
    framer.end(&mut s).unwrap();
    assert_eq!(s.into_writer(), vec![0x93, 0x01, 0x02, 0x03]);
}

#[test]
fn unknown_length_seq_counts_and_replays() {
    let mut s = fresh();
    let mut framer = match s.serialize_seq(None).unwrap() {
        SerializeSeq::UnKnownLength(u) => u,
        SerializeSeq::KnownLength(_) => panic!("length was not declared"),
    };
    for v in [1u8, 2, 3] {
        framer.holder().serialize_u8(v).unwrap();
        framer.count_element().unwrap();
    }
    framer.end(&mut s).unwrap();
    assert_eq!(s.into_writer(), vec![0x93, 0x01, 0x02, 0x03]);
}

#[test]
fn both_seq_paths_agree_byte_for_byte() {
    let elems = [9u8, 130, 17];

    let mut known = fresh();
    let framer = known.serialize_seq(Some(elems.len())).unwrap();
    for v in elems {
        known.serialize_u8(v).unwrap();
    }
    framer.end(&mut known).unwrap();

    let mut unknown = fresh();
    let mut framer = match unknown.serialize_seq(None).unwrap() {
        SerializeSeq::UnKnownLength(u) => u,
        SerializeSeq::KnownLength(_) => panic!("length was not declared"),
    };
    for v in elems {
        framer.holder().serialize_u8(v).unwrap();
        framer.count_element().unwrap();
    }
    framer.end(&mut unknown).unwrap();

    assert_eq!(known.into_writer(), unknown.into_writer());
}

#[test]
fn empty_unknown_seq_is_bare_header() {
    let mut s = fresh();
    let framer = s.serialize_seq(None).unwrap();
    framer.end(&mut s).unwrap();
    assert_eq!(s.into_writer(), vec![0x90]);
}

#[test]
fn seq_of_16_elements_takes_array16_header() {
    let mut s = fresh();
    let framer = s.serialize_seq(Some(16)).unwrap();
    for _ in 0..16 {
        s.serialize_u8(0).unwrap();
    }
    framer.end(&mut s).unwrap();
    let bytes = s.into_writer();
    assert_eq!(&bytes[..3], &[0xdc, 0x00, 0x10]);
    assert_eq!(bytes.len(), 19);
}

#[test]
fn known_length_map_streams_behind_header() {
    let mut s = fresh();
    let framer = s.serialize_map(Some(2)).unwrap();
    s.serialize_str("a").unwrap();
    s.serialize_u8(1).unwrap();
    s.serialize_str("b").unwrap();
    s.serialize_u8(2).unwrap();
    framer.end(&mut s).unwrap();
    assert_eq!(
        s.into_writer(),
        vec![0x82, 0xa1, 0x61, 0x01, 0xa1, 0x62, 0x02]
    );
}

#[test]
fn map_count_follows_keys_not_value_sizes() {
    // Two entries whose values differ wildly in size: the header still says 2.
    let mut s = fresh();
    let mut framer = match s.serialize_map(None).unwrap() {
        SerializeMap::UnKnownLength(u) => u,
        SerializeMap::KnownLength(_) => panic!("length was not declared"),
    };
    framer.holder().serialize_u8(1).unwrap();
    framer.count_entry().unwrap();
    framer.holder().serialize_str("a value much longer than one byte").unwrap();
    framer.holder().serialize_u8(2).unwrap();
    framer.count_entry().unwrap();
    framer.holder().serialize_u8(0).unwrap();
    framer.end(&mut s).unwrap();
    let bytes = s.into_writer();
    assert_eq!(bytes[0], 0x82);
}

#[test]
fn both_map_paths_agree_byte_for_byte() {
    let mut known = fresh();
    let framer = known.serialize_map(Some(1)).unwrap();
    known.serialize_str("k").unwrap();
    known.serialize_u16(999).unwrap();
    framer.end(&mut known).unwrap();

    let mut unknown = fresh();
    let mut framer = match unknown.serialize_map(None).unwrap() {
        SerializeMap::UnKnownLength(u) => u,
        SerializeMap::KnownLength(_) => panic!("length was not declared"),
    };
    unknown_entry(&mut framer);
    framer.end(&mut unknown).unwrap();

    assert_eq!(known.into_writer(), unknown.into_writer());
}

fn unknown_entry(framer: &mut mpser::serializer::ser_map::UnKnownLengthMapSerializer) {
    framer.holder().serialize_str("k").unwrap();
    framer.count_entry().unwrap();
    framer.holder().serialize_u16(999).unwrap();
}

#[test]
fn map_of_16_entries_takes_map16_header() {
    let mut s = fresh();
    let framer = s.serialize_map(Some(16)).unwrap();
    for i in 0..16u8 {
        s.serialize_u8(i).unwrap();
        s.serialize_u8(i).unwrap();
    }
    framer.end(&mut s).unwrap();
    let bytes = s.into_writer();
    assert_eq!(&bytes[..3], &[0xde, 0x00, 0x10]);
}

#[test]
fn record_is_bare_concatenation_of_fields() {
    // A three-field record, encoded through the record framer.
    let mut s = fresh();
    let framer = s.serialize_struct("Point3", 3).unwrap();
    s.serialize_u8(1).unwrap();
    s.serialize_str("hi").unwrap();
    s.serialize_bool(true).unwrap();
    framer.end().unwrap();
    let record = s.into_writer();

    // Each field encoded on its own, concatenated by hand.
    let mut concat = Vec::new();
    let mut f = fresh();
    f.serialize_u8(1).unwrap();
    concat.extend_from_slice(&f.into_writer());
    let mut f = fresh();
    f.serialize_str("hi").unwrap();
    concat.extend_from_slice(&f.into_writer());
    let mut f = fresh();
    f.serialize_bool(true).unwrap();
    concat.extend_from_slice(&f.into_writer());

    assert_eq!(record, concat);
    assert_eq!(record, vec![0x01, 0xa2, 0x68, 0x69, 0xc3]);
}

#[test]
fn tuple_framing_matches_struct_framing() {
    let mut a = fresh();
    let framer = a.serialize_tuple(2).unwrap();
    a.serialize_u8(4).unwrap();
    a.serialize_u8(5).unwrap();
    framer.end().unwrap();

    let mut b = fresh();
    let framer = b.serialize_tuple_struct("Pair", 2).unwrap();
    b.serialize_u8(4).unwrap();
    b.serialize_u8(5).unwrap();
    framer.end().unwrap();

    let bytes = a.into_writer();
    assert_eq!(bytes, b.into_writer());
    assert_eq!(bytes, vec![0x04, 0x05]);
}

#[test]
fn nested_unknown_seq_inside_known_seq() {
    let mut s = fresh();
    let outer = s.serialize_seq(Some(2)).unwrap();
    s.serialize_u8(1).unwrap();
    let mut inner = match s.serialize_seq(None).unwrap() {
        SerializeSeq::UnKnownLength(u) => u,
        SerializeSeq::KnownLength(_) => panic!("length was not declared"),
    };
    inner.holder().serialize_u8(2).unwrap();
    inner.count_element().unwrap();
    inner.end(&mut s).unwrap();
    outer.end(&mut s).unwrap();
    assert_eq!(s.into_writer(), vec![0x92, 0x01, 0x91, 0x02]);
}

//! The mathematical model of the wire format: one spec function per value
//! kind gives the exact byte sequence that an encoded value occupies, and the
//! laws at the bottom relate the two container-framing strategies.
//!
//! Scalars carry a single-byte tag, or a short marker followed by big-endian
//! data bytes; containers carry a count header ahead of their contents.

use vstd::prelude::*;
use vstd::utf8::encode_utf8;

verus! {

/// The two bytes of a 16-bit value, big-endian.
pub open spec fn be16(v: u16) -> Seq<u8> {
    seq![(v >> 8) as u8, v as u8]
}

/// The four bytes of a 32-bit value, big-endian.
pub open spec fn be32(v: u32) -> Seq<u8> {
    seq![(v >> 24) as u8, (v >> 16) as u8, (v >> 8) as u8, v as u8]
}

/// The eight bytes of a 64-bit value, big-endian.
pub open spec fn be64(v: u64) -> Seq<u8> {
    seq![
        (v >> 56) as u8,
        (v >> 48) as u8,
        (v >> 40) as u8,
        (v >> 32) as u8,
        (v >> 24) as u8,
        (v >> 16) as u8,
        (v >> 8) as u8,
        v as u8,
    ]
}

/// The single nil tag byte.
pub open spec fn nil_wire() -> Seq<u8> {
    seq![0xc0u8]
}

/// The single-byte tag of a boolean.
pub open spec fn bool_wire(v: bool) -> Seq<u8> {
    if v {
        seq![0xc3u8]
    } else {
        seq![0xc2u8]
    }
}

/// The canonical (smallest) encoding of an unsigned integer: a positive
/// fixint below 128, otherwise the narrowest explicit-width unsigned marker.
pub open spec fn uint_wire(v: u64) -> Seq<u8> {
    if v < 128 {
        seq![v as u8]
    } else if v < 256 {
        seq![0xccu8, v as u8]
    } else if v < 65536 {
        seq![0xcdu8] + be16(v as u16)
    } else if v < 4294967296 {
        seq![0xceu8] + be32(v as u32)
    } else {
        seq![0xcfu8] + be64(v)
    }
}

/// The canonical (smallest) encoding of a signed integer: non-negative values
/// take the unsigned forms, small negatives a negative fixint, the rest the
/// narrowest explicit-width signed marker.
pub open spec fn sint_wire(v: i64) -> Seq<u8> {
    if v >= 0 {
        uint_wire(v as u64)
    } else if v >= -32 {
        seq![v as u8]
    } else if v >= -128 {
        seq![0xd0u8, v as u8]
    } else if v >= -32768 {
        seq![0xd1u8] + be16(v as u16)
    } else if v >= -2147483648 {
        seq![0xd2u8] + be32(v as u32)
    } else {
        seq![0xd3u8] + be64(v as u64)
    }
}

/// The length header of a string of `n` bytes (fixstr, str8, str16 or str32).
/// Meaningful for `0 <= n <= u32::MAX`.
pub open spec fn str_header(n: int) -> Seq<u8> {
    if n < 32 {
        seq![(0xa0 + n) as u8]
    } else if n < 256 {
        seq![0xd9u8, n as u8]
    } else if n < 65536 {
        seq![0xdau8] + be16(n as u16)
    } else {
        seq![0xdbu8] + be32(n as u32)
    }
}

/// The full wire form of a string value: the header for its UTF-8 byte
/// length, then the UTF-8 bytes themselves.
pub open spec fn str_wire(s: Seq<char>) -> Seq<u8> {
    str_header(encode_utf8(s).len() as int) + encode_utf8(s)
}

/// The length header of a binary blob of `n` bytes (bin8, bin16 or bin32).
/// Meaningful for `0 <= n <= u32::MAX`.
pub open spec fn bin_header(n: int) -> Seq<u8> {
    if n < 256 {
        seq![0xc4u8, n as u8]
    } else if n < 65536 {
        seq![0xc5u8] + be16(n as u16)
    } else {
        seq![0xc6u8] + be32(n as u32)
    }
}

/// The full wire form of a binary blob: its length header, then its bytes.
pub open spec fn bin_wire(b: Seq<u8>) -> Seq<u8> {
    bin_header(b.len() as int) + b
}

/// The count header of an array of `n` elements (fixarray, array16 or
/// array32). Meaningful for `0 <= n <= u32::MAX`.
pub open spec fn array_header(n: int) -> Seq<u8> {
    if n < 16 {
        seq![(0x90 + n) as u8]
    } else if n < 65536 {
        seq![0xdcu8] + be16(n as u16)
    } else {
        seq![0xddu8] + be32(n as u32)
    }
}

/// The count header of a map of `n` entries (fixmap, map16 or map32).
/// Meaningful for `0 <= n <= u32::MAX`.
pub open spec fn map_header(n: int) -> Seq<u8> {
    if n < 16 {
        seq![(0x80 + n) as u8]
    } else if n < 65536 {
        seq![0xdeu8] + be16(n as u16)
    } else {
        seq![0xdfu8] + be32(n as u32)
    }
}

/// The wire form of a sequence whose element count was declared up front:
/// the header carries the declared count, the elements follow in order.
pub open spec fn seq_wire_known(declared: int, elems: Seq<Seq<u8>>) -> Seq<u8> {
    array_header(declared) + elems.flatten()
}

/// The wire form of a sequence framed by buffer-and-replay: the header
/// carries the count of elements actually produced.
pub open spec fn seq_wire_unknown(elems: Seq<Seq<u8>>) -> Seq<u8> {
    array_header(elems.len() as int) + elems.flatten()
}

/// The contents of a map: each entry is its key's wire form directly followed
/// by its value's wire form, entries in order, with no separating marker.
pub open spec fn map_payload(entries: Seq<(Seq<u8>, Seq<u8>)>) -> Seq<u8> {
    entries.map_values(|e: (Seq<u8>, Seq<u8>)| e.0 + e.1).flatten()
}

/// The wire form of a map whose entry count was declared up front.
pub open spec fn map_wire_known(declared: int, entries: Seq<(Seq<u8>, Seq<u8>)>) -> Seq<u8> {
    map_header(declared) + map_payload(entries)
}

/// The wire form of a map framed by buffer-and-replay.
pub open spec fn map_wire_unknown(entries: Seq<(Seq<u8>, Seq<u8>)>) -> Seq<u8> {
    map_header(entries.len() as int) + map_payload(entries)
}

/// The wire form of a tuple, tuple record or struct of K fields: the fields'
/// wire forms concatenated in declaration order, nothing else.
pub open spec fn record_wire(fields: Seq<Seq<u8>>) -> Seq<u8> {
    fields.flatten()
}

/// The sum of the lengths of a collection of byte sequences.
pub open spec fn total_len(parts: Seq<Seq<u8>>) -> int
    decreases parts.len(),
{
    if parts.len() == 0 {
        0
    } else {
        parts[0].len() + total_len(parts.drop_first())
    }
}

/// The 16-bit value two big-endian bytes stand for.
pub open spec fn be16_val(b: Seq<u8>) -> u16
    recommends
        b.len() == 2,
{
    ((b[0] as u16) << 8) | (b[1] as u16)
}

/// The 32-bit value four big-endian bytes stand for.
pub open spec fn be32_val(b: Seq<u8>) -> u32
    recommends
        b.len() == 4,
{
    ((b[0] as u32) << 24) | ((b[1] as u32) << 16) | ((b[2] as u32) << 8) | (b[3] as u32)
}

/// The 64-bit value eight big-endian bytes stand for.
pub open spec fn be64_val(b: Seq<u8>) -> u64
    recommends
        b.len() == 8,
{
    ((b[0] as u64) << 56) | ((b[1] as u64) << 48) | ((b[2] as u64) << 40) | ((b[3] as u64) << 32)
        | ((b[4] as u64) << 24) | ((b[5] as u64) << 16) | ((b[6] as u64) << 8) | (b[7] as u64)
}

/// The unsigned integer a canonical unsigned wire form stands for: what the
/// read direction must recover from the bytes `uint_wire` produces.
pub open spec fn uint_of_wire(b: Seq<u8>) -> u64
    recommends
        b.len() >= 1,
{
    if b[0] < 0x80 {
        b[0] as u64
    } else if b[0] == 0xcc {
        b[1] as u64
    } else if b[0] == 0xcd {
        be16_val(b.skip(1)) as u64
    } else if b[0] == 0xce {
        be32_val(b.skip(1)) as u64
    } else {
        be64_val(b.skip(1))
    }
}

/// The signed integer a canonical signed wire form stands for: what the read
/// direction must recover from the bytes `sint_wire` produces.
pub open spec fn sint_of_wire(b: Seq<u8>) -> i64
    recommends
        b.len() >= 1,
{
    if b[0] >= 0xe0 {
        (b[0] as i8) as i64
    } else if b[0] == 0xd0 {
        (b[1] as i8) as i64
    } else if b[0] == 0xd1 {
        (be16_val(b.skip(1)) as i16) as i64
    } else if b[0] == 0xd2 {
        (be32_val(b.skip(1)) as i32) as i64
    } else if b[0] == 0xd3 {
        be64_val(b.skip(1)) as i64
    } else {
        uint_of_wire(b) as i64
    }
}

proof fn lemma_be16_round_trip(v: u16)
    ensures
        be16_val(be16(v)) == v,
{
    assert((((v >> 8) as u8 as u16) << 8) | (v as u8 as u16) == v) by (bit_vector);
}

proof fn lemma_be32_round_trip(v: u32)
    ensures
        be32_val(be32(v)) == v,
{
    assert((((v >> 24) as u8 as u32) << 24) | (((v >> 16) as u8 as u32) << 16) | (((v
        >> 8) as u8 as u32) << 8) | (v as u8 as u32) == v) by (bit_vector);
}

proof fn lemma_be64_round_trip(v: u64)
    ensures
        be64_val(be64(v)) == v,
{
    assert((((v >> 56) as u8 as u64) << 56) | (((v >> 48) as u8 as u64) << 48) | (((v
        >> 40) as u8 as u64) << 40) | (((v >> 32) as u8 as u64) << 32) | (((v
        >> 24) as u8 as u64) << 24) | (((v >> 16) as u8 as u64) << 16) | (((v >> 8) as u8 as u64)
        << 8) | (v as u8 as u64) == v) by (bit_vector);
}

/// Law, toward the round trip: decoding the canonical unsigned wire form of
/// any unsigned integer gives that integer back.
pub proof fn lemma_uint_wire_round_trip(v: u64)
    ensures
        uint_of_wire(uint_wire(v)) == v,
{
    let b = uint_wire(v);
    if v < 128 {
    } else if v < 256 {
    } else if v < 65536 {
        assert(b.skip(1) =~= be16(v as u16));
        lemma_be16_round_trip(v as u16);
    } else if v < 4294967296 {
        assert(b.skip(1) =~= be32(v as u32));
        lemma_be32_round_trip(v as u32);
    } else {
        assert(b.skip(1) =~= be64(v));
        lemma_be64_round_trip(v);
    }
}

/// Law, toward the round trip: decoding the canonical signed wire form of any
/// signed integer gives that integer back.
pub proof fn lemma_sint_wire_round_trip(v: i64)
    ensures
        sint_of_wire(sint_wire(v)) == v,
{
    let b = sint_wire(v);
    if v >= 0 {
        lemma_uint_wire_round_trip(v as u64);
    } else if v >= -32 {
        assert(v as u8 >= 0xe0 && (v as u8 as i8) as i64 == v) by (bit_vector)
            requires
                -32 <= v < 0,
        ;
    } else if v >= -128 {
        assert((v as u8 as i8) as i64 == v) by (bit_vector)
            requires
                -128 <= v < -32,
        ;
    } else if v >= -32768 {
        assert(b.skip(1) =~= be16(v as u16));
        lemma_be16_round_trip(v as u16);
        assert((v as u16 as i16) as i64 == v) by (bit_vector)
            requires
                -32768 <= v < -128,
        ;
    } else if v >= -2147483648 {
        assert(b.skip(1) =~= be32(v as u32));
        lemma_be32_round_trip(v as u32);
        assert((v as u32 as i32) as i64 == v) by (bit_vector)
            requires
                -2147483648 <= v < -32768,
        ;
    } else {
        assert(b.skip(1) =~= be64(v as u64));
        lemma_be64_round_trip(v as u64);
        assert((v as u64) as i64 == v) by (bit_vector)
            requires
                v < -2147483648,
        ;
    }
}

/// The boolean a boolean wire form stands for: what the read direction must
/// recover from the byte `bool_wire` produces.
pub open spec fn bool_of_wire(b: Seq<u8>) -> bool
    recommends
        b.len() == 1,
{
    b[0] == 0xc3
}

/// Law, toward the round trip: decoding the wire form of a boolean gives that
/// boolean back.
pub proof fn lemma_bool_wire_round_trip(v: bool)
    ensures
        bool_of_wire(bool_wire(v)) == v,
{
}

/// Law, toward the round trip: the bytes behind a string value's length
/// header are exactly the UTF-8 encoding of its characters, and decoding them
/// gives the characters back.
pub proof fn lemma_str_wire_round_trip(s: Seq<char>)
    ensures
        str_wire(s).skip(str_header(encode_utf8(s).len() as int).len() as int) == encode_utf8(s),
        vstd::utf8::decode_utf8(encode_utf8(s)) == s,
{
    broadcast use vstd::utf8::encode_utf8_decode_utf8;

    let h = str_header(encode_utf8(s).len() as int);
    assert(str_wire(s).skip(h.len() as int) =~= encode_utf8(s));
}

/// A character's UTF-8 encoding takes at most four bytes, so the byte length
/// of an encoded character sequence is at most four times its character
/// count. This bounds a string value's length header.
pub proof fn lemma_utf8_len_bound(s: Seq<char>)
    ensures
        encode_utf8(s).len() <= 4 * s.len(),
    decreases s.len(),
{
    if s.len() > 0 {
        lemma_utf8_len_bound(s.drop_first());
    }
}

/// Law: a none value and a unit value share one wire form, the single nil
/// tag byte. `serialize_none` and `serialize_unit` both append exactly
/// `nil_wire()`.
pub proof fn lemma_none_and_unit_share_nil()
    ensures
        nil_wire() == seq![0xc0u8],
        nil_wire().len() == 1,
{
}

/// Law: for a sequence of N elements, the known-length path (count declared
/// ahead of traversal) and the unknown-length path (elements buffered and
/// counted, header written at the end) produce byte-identical output whenever
/// the declared count matches the number of elements produced.
pub proof fn lemma_seq_paths_agree(declared: int, elems: Seq<Seq<u8>>)
    requires
        elems.len() == declared,
    ensures
        seq_wire_known(declared, elems) == seq_wire_unknown(elems),
{
}

/// Law: the same agreement holds for maps: declaring the true entry count up
/// front and counting entries while buffering give byte-identical output.
pub proof fn lemma_map_paths_agree(declared: int, entries: Seq<(Seq<u8>, Seq<u8>)>)
    requires
        entries.len() == declared,
    ensures
        map_wire_known(declared, entries) == map_wire_unknown(entries),
{
}

/// Law: the count header of a map depends only on how many entries were
/// produced, never on the size of the keys or values: two maps with the same
/// entry count carry identical headers.
pub proof fn lemma_map_header_counts_entries(
    xs: Seq<(Seq<u8>, Seq<u8>)>,
    ys: Seq<(Seq<u8>, Seq<u8>)>,
)
    requires
        xs.len() == ys.len(),
    ensures
        map_wire_unknown(xs).take(map_header(xs.len() as int).len() as int) == map_wire_unknown(
            ys,
        ).take(map_header(ys.len() as int).len() as int),
{
    let h = map_header(xs.len() as int);
    assert(map_wire_unknown(xs).take(h.len() as int) =~= h);
    assert(map_wire_unknown(ys).take(h.len() as int) =~= h);
}

/// Law: a K-field record occupies exactly the concatenation of its fields'
/// wire forms: its length is the sum of the fields' lengths, so no header and
/// no separating marker of any kind is added.
pub proof fn lemma_record_adds_no_bytes(fields: Seq<Seq<u8>>)
    ensures
        record_wire(fields) == fields.flatten(),
        record_wire(fields).len() == total_len(fields),
    decreases fields.len(),
{
    if fields.len() == 0 {
        assert(fields.flatten() =~= Seq::<u8>::empty());
    } else {
        lemma_record_adds_no_bytes(fields.drop_first());
        assert(fields.flatten() =~= fields[0] + fields.drop_first().flatten());
    }
}

} // verus!

//! Trusted wrappers around the primitive tag codec (the `rmp` crate): each
//! one appends the exact byte sequence given by the matching spec function in
//! `crate::wire` to a `Vec<u8>` sink.
//!
//! A write into a `Vec<u8>` sink cannot fail: `rmp` reaches the sink through
//! `std::io::Write`, whose implementation for `Vec<u8>` only appends and is
//! documented as never returning an error. Each wrapper therefore promises
//! `Ok`; the error mapping mirrors the marker-write / data-write distinction
//! of `rmp::encode::ValueWriteError` all the same.

use vstd::prelude::*;
use vstd::string::StringSliceAdditionalSpecFns;

use crate::serializer::{SerializeError, ValueWriteKind};
use crate::wire::{array_header, bin_wire, bool_wire, map_header, nil_wire, sint_wire, str_wire,
    uint_wire};

verus! {

/// Relies on `rmp::encode::write_nil`: appends the single nil tag byte.
#[verifier::external_body]
pub(crate) fn put_nil(sink: &mut Vec<u8>) -> (r: Result<(), SerializeError>)
    ensures
        r is Ok,
        final(sink)@ == old(sink)@ + nil_wire(),
{
    rmp::encode::write_nil(sink)
        .map_err(|_| SerializeError::InvalidValueWrite(ValueWriteKind::InvalidMarkerWrite))
}

/// Relies on `rmp::encode::write_bool`: appends the true or false tag byte.
#[verifier::external_body]
pub(crate) fn put_bool(sink: &mut Vec<u8>, v: bool) -> (r: Result<(), SerializeError>)
    ensures
        r is Ok,
        final(sink)@ == old(sink)@ + bool_wire(v),
{
    rmp::encode::write_bool(sink, v)
        .map_err(|_| SerializeError::InvalidValueWrite(ValueWriteKind::InvalidMarkerWrite))
}

/// Relies on `rmp::encode::write_uint`: appends the smallest representation
/// of an unsigned integer (positive fixint below 128, else the narrowest
/// explicit-width unsigned marker followed by big-endian data).
#[verifier::external_body]
pub(crate) fn put_uint(sink: &mut Vec<u8>, v: u64) -> (r: Result<(), SerializeError>)
    ensures
        r is Ok,
        final(sink)@ == old(sink)@ + uint_wire(v),
{
    rmp::encode::write_uint(sink, v).map(|_| ()).map_err(|e| match e {
        rmp::encode::ValueWriteError::InvalidMarkerWrite(_) => SerializeError::InvalidValueWrite(
            ValueWriteKind::InvalidMarkerWrite,
        ),
        rmp::encode::ValueWriteError::InvalidDataWrite(_) => SerializeError::InvalidValueWrite(
            ValueWriteKind::InvalidDataWrite,
        ),
    })
}

/// Relies on `rmp::encode::write_sint`: appends the smallest representation
/// of a signed integer (fixints near zero, else the narrowest explicit-width
/// marker, unsigned forms for large positives, big-endian data).
#[verifier::external_body]
pub(crate) fn put_sint(sink: &mut Vec<u8>, v: i64) -> (r: Result<(), SerializeError>)
    ensures
        r is Ok,
        final(sink)@ == old(sink)@ + sint_wire(v),
{
    rmp::encode::write_sint(sink, v).map(|_| ()).map_err(|e| match e {
        rmp::encode::ValueWriteError::InvalidMarkerWrite(_) => SerializeError::InvalidValueWrite(
            ValueWriteKind::InvalidMarkerWrite,
        ),
        rmp::encode::ValueWriteError::InvalidDataWrite(_) => SerializeError::InvalidValueWrite(
            ValueWriteKind::InvalidDataWrite,
        ),
    })
}

/// Relies on `rmp::encode::write_str`: appends the string length header for
/// the UTF-8 byte length, then the UTF-8 bytes. The header carries the length
/// as 32 bits, so longer strings are left out.
#[verifier::external_body]
pub(crate) fn put_str(sink: &mut Vec<u8>, v: &str) -> (r: Result<(), SerializeError>)
    requires
        v.spec_bytes().len() <= u32::MAX,
    ensures
        r is Ok,
        final(sink)@ == old(sink)@ + str_wire(v@),
{
    rmp::encode::write_str(sink, v).map_err(|e| match e {
        rmp::encode::ValueWriteError::InvalidMarkerWrite(_) => SerializeError::InvalidValueWrite(
            ValueWriteKind::InvalidMarkerWrite,
        ),
        rmp::encode::ValueWriteError::InvalidDataWrite(_) => SerializeError::InvalidValueWrite(
            ValueWriteKind::InvalidDataWrite,
        ),
    })
}

/// Relies on `rmp::encode::write_bin`: appends the binary length header, then
/// the bytes themselves. The header carries the length as 32 bits, so longer
/// blobs are left out.
#[verifier::external_body]
pub(crate) fn put_bin(sink: &mut Vec<u8>, v: &[u8]) -> (r: Result<(), SerializeError>)
    requires
        v@.len() <= u32::MAX,
    ensures
        r is Ok,
        final(sink)@ == old(sink)@ + bin_wire(v@),
{
    rmp::encode::write_bin(sink, v).map_err(|e| match e {
        rmp::encode::ValueWriteError::InvalidMarkerWrite(_) => SerializeError::InvalidValueWrite(
            ValueWriteKind::InvalidMarkerWrite,
        ),
        rmp::encode::ValueWriteError::InvalidDataWrite(_) => SerializeError::InvalidValueWrite(
            ValueWriteKind::InvalidDataWrite,
        ),
    })
}

/// Relies on `rmp::encode::write_array_len`: appends the array count header
/// (fixarray, array16 or array32).
#[verifier::external_body]
pub(crate) fn put_array_len(sink: &mut Vec<u8>, n: u32) -> (r: Result<(), SerializeError>)
    ensures
        r is Ok,
        final(sink)@ == old(sink)@ + array_header(n as int),
{
    rmp::encode::write_array_len(sink, n).map(|_| ()).map_err(|e| match e {
        rmp::encode::ValueWriteError::InvalidMarkerWrite(_) => SerializeError::InvalidValueWrite(
            ValueWriteKind::InvalidMarkerWrite,
        ),
        rmp::encode::ValueWriteError::InvalidDataWrite(_) => SerializeError::InvalidValueWrite(
            ValueWriteKind::InvalidDataWrite,
        ),
    })
}

/// Relies on `rmp::encode::write_map_len`: appends the map entry-count header
/// (fixmap, map16 or map32).
#[verifier::external_body]
pub(crate) fn put_map_len(sink: &mut Vec<u8>, n: u32) -> (r: Result<(), SerializeError>)
    ensures
        r is Ok,
        final(sink)@ == old(sink)@ + map_header(n as int),
{
    rmp::encode::write_map_len(sink, n).map(|_| ()).map_err(|e| match e {
        rmp::encode::ValueWriteError::InvalidMarkerWrite(_) => SerializeError::InvalidValueWrite(
            ValueWriteKind::InvalidMarkerWrite,
        ),
        rmp::encode::ValueWriteError::InvalidDataWrite(_) => SerializeError::InvalidValueWrite(
            ValueWriteKind::InvalidDataWrite,
        ),
    })
}

/// Relies on `String::from(char)`: the returned string holds exactly the one
/// character.
#[verifier::external_body]
pub(crate) fn char_to_string(c: char) -> (r: String)
    ensures
        r@ == seq![c],
{
    String::from(c)
}

} // verus!

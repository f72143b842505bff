//! The encoder core: it owns the output sink and a nesting-depth counter and
//! offers one method per value kind. Scalar methods pass straight through to
//! the primitive tag codec; container methods hand framing to the types in
//! `ser_seq` and `ser_map`, records to `ser_struct`, and tagged-union
//! payloads to `ser_variant`. Every method's contract states the exact bytes
//! it appends, in terms of the spec functions of `crate::wire`.

mod prim;
pub mod ser_map;
pub mod ser_seq;
pub mod ser_struct;
pub mod ser_variant;

use vstd::prelude::*;
use vstd::string::StringSliceAdditionalSpecFns;

use crate::serializer::ser_map::{SerializeMap, UnKnownLengthMapSerializer, KnownLengthMapSerializer};
use crate::serializer::ser_seq::{SerializeSeq, UnKnownLengthSeqSerializer, KnownLengthSeqSerializer};
use crate::serializer::ser_struct::StructSerializer;
use crate::serializer::ser_variant::VariantSerializer;
use crate::wire::{bin_wire, bool_wire, map_header, nil_wire, sint_wire, str_wire, uint_wire};

verus! {

/// How a primitive write failed: while writing a tag marker, or while writing
/// the data bytes behind one.
#[derive(Debug)]
pub enum ValueWriteKind {
    InvalidMarkerWrite,
    InvalidDataWrite,
}

/// A fault while encoding: a free-form syntax fault raised by the caller, a
/// primitive-codec write fault, or a scalar-kind mismatch (reserved for the
/// decode direction; the encoder never raises it).
#[derive(Debug)]
pub enum SerializeError {
    SyntaxError(String),
    InvalidValueWrite(ValueWriteKind),
    InvalidType(String),
}

/// One encode run: the sink the bytes go to, and a nesting-depth counter that
/// starts at zero for every instance and is not yet used to enforce a limit.
pub struct Serializer {
    writer: Vec<u8>,
    depth: usize,
}

/// Holds when a call turned the serializer `pre` into `post` by appending
/// exactly the bytes `b` to the sink, leaving the depth counter alone.
pub open spec fn appended(pre: Serializer, post: Serializer, b: Seq<u8>) -> bool {
    &&& post.bytes() == pre.bytes() + b
    &&& post.depth() == pre.depth()
}

impl Serializer {
    /// The bytes written to the sink so far.
    pub closed spec fn bytes(self) -> Seq<u8> {
        self.writer@
    }

    /// The current nesting depth.
    pub closed spec fn depth(self) -> usize {
        self.depth
    }

    pub fn new(writer: Vec<u8>) -> (r: Self)
        ensures
            r.bytes() == writer@,
            r.depth() == 0,
    {
        Serializer { writer, depth: 0 }
    }

    /// Gives the sink back once the run is over.
    pub fn into_writer(self) -> (r: Vec<u8>)
        ensures
            r@ == self.bytes(),
    {
        self.writer
    }

    pub fn serialize_bool(&mut self, v: bool) -> (r: Result<(), SerializeError>)
        ensures
            r is Ok,
            appended(*old(self), *final(self), bool_wire(v)),
    {
        prim::put_bool(&mut self.writer, v)
    }

    pub fn serialize_i8(&mut self, v: i8) -> (r: Result<(), SerializeError>)
        ensures
            r is Ok,
            appended(*old(self), *final(self), sint_wire(v as i64)),
    {
        prim::put_sint(&mut self.writer, v as i64)
    }

    pub fn serialize_i16(&mut self, v: i16) -> (r: Result<(), SerializeError>)
        ensures
            r is Ok,
            appended(*old(self), *final(self), sint_wire(v as i64)),
    {
        prim::put_sint(&mut self.writer, v as i64)
    }

    pub fn serialize_i32(&mut self, v: i32) -> (r: Result<(), SerializeError>)
        ensures
            r is Ok,
            appended(*old(self), *final(self), sint_wire(v as i64)),
    {
        prim::put_sint(&mut self.writer, v as i64)
    }

    pub fn serialize_i64(&mut self, v: i64) -> (r: Result<(), SerializeError>)
        ensures
            r is Ok,
            appended(*old(self), *final(self), sint_wire(v)),
    {
        prim::put_sint(&mut self.writer, v)
    }

    pub fn serialize_u8(&mut self, v: u8) -> (r: Result<(), SerializeError>)
        ensures
            r is Ok,
            appended(*old(self), *final(self), uint_wire(v as u64)),
    {
        prim::put_uint(&mut self.writer, v as u64)
    }

    pub fn serialize_u16(&mut self, v: u16) -> (r: Result<(), SerializeError>)
        ensures
            r is Ok,
            appended(*old(self), *final(self), uint_wire(v as u64)),
    {
        prim::put_uint(&mut self.writer, v as u64)
    }

    pub fn serialize_u32(&mut self, v: u32) -> (r: Result<(), SerializeError>)
        ensures
            r is Ok,
            appended(*old(self), *final(self), uint_wire(v as u64)),
    {
        prim::put_uint(&mut self.writer, v as u64)
    }

    pub fn serialize_u64(&mut self, v: u64) -> (r: Result<(), SerializeError>)
        ensures
            r is Ok,
            appended(*old(self), *final(self), uint_wire(v)),
    {
        prim::put_uint(&mut self.writer, v)
    }

    /// A character is written as a string value of that one character.
    pub fn serialize_char(&mut self, v: char) -> (r: Result<(), SerializeError>)
        ensures
            r is Ok,
            appended(*old(self), *final(self), str_wire(seq![v])),
    {
        let s = prim::char_to_string(v);
        proof {
            crate::wire::lemma_utf8_len_bound(seq![v]);
        }
        self.serialize_str(s.as_str())
    }

    /// The string length header carries the UTF-8 byte length as 32 bits, so
    /// longer strings are outside the wire format.
    pub fn serialize_str(&mut self, v: &str) -> (r: Result<(), SerializeError>)
        requires
            v.spec_bytes().len() <= u32::MAX,
        ensures
            r is Ok,
            appended(*old(self), *final(self), str_wire(v@)),
    {
        prim::put_str(&mut self.writer, v)
    }

    /// The binary length header carries the length as 32 bits, so longer
    /// blobs are outside the wire format.
    pub fn serialize_bytes(&mut self, v: &[u8]) -> (r: Result<(), SerializeError>)
        requires
            v@.len() <= u32::MAX,
        ensures
            r is Ok,
            appended(*old(self), *final(self), bin_wire(v@)),
    {
        prim::put_bin(&mut self.writer, v)
    }

    /// A none value is the nil tag, the same wire form as a unit value.
    pub fn serialize_none(&mut self) -> (r: Result<(), SerializeError>)
        ensures
            r is Ok,
            appended(*old(self), *final(self), nil_wire()),
    {
        self.serialize_unit()
    }

    /// A some value is fully transparent: no wrapper byte is written here,
    /// and the caller writes the inner value next through this serializer.
    pub fn serialize_some(&mut self) -> (r: Result<(), SerializeError>)
        ensures
            r is Ok,
            appended(*old(self), *final(self), Seq::<u8>::empty()),
    {
        proof {
            assert(old(self).bytes() + Seq::<u8>::empty() =~= old(self).bytes());
        }
        Ok(())
    }

    pub fn serialize_unit(&mut self) -> (r: Result<(), SerializeError>)
        ensures
            r is Ok,
            appended(*old(self), *final(self), nil_wire()),
    {
        prim::put_nil(&mut self.writer)
    }

    /// A unit record is written as its type name, as a plain string value.
    pub fn serialize_unit_struct(&mut self, name: &str) -> (r: Result<(), SerializeError>)
        requires
            name.spec_bytes().len() <= u32::MAX,
        ensures
            r is Ok,
            appended(*old(self), *final(self), str_wire(name@)),
    {
        self.serialize_str(name)
    }

    /// A unit variant is written as the variant name, as a plain string
    /// value; the discriminant index is discarded.
    pub fn serialize_unit_variant(
        &mut self,
        name: &str,
        variant_index: u32,
        variant: &str,
    ) -> (r: Result<(), SerializeError>)
        requires
            variant.spec_bytes().len() <= u32::MAX,
        ensures
            r is Ok,
            appended(*old(self), *final(self), str_wire(variant@)),
    {
        self.serialize_str(variant)
    }

    /// A newtype record is fully transparent: the name is discarded, no byte
    /// is written here, and the caller writes the inner value next.
    pub fn serialize_newtype_struct(&mut self, name: &str) -> (r: Result<(), SerializeError>)
        ensures
            r is Ok,
            appended(*old(self), *final(self), Seq::<u8>::empty()),
    {
        proof {
            assert(old(self).bytes() + Seq::<u8>::empty() =~= old(self).bytes());
        }
        Ok(())
    }

    /// A newtype variant is externally tagged: a map header of count one,
    /// then the variant name as a string; the caller writes the payload value
    /// next, as the single entry's value.
    pub fn serialize_newtype_variant(
        &mut self,
        name: &str,
        variant_index: u32,
        variant: &str,
    ) -> (r: Result<(), SerializeError>)
        requires
            variant.spec_bytes().len() <= u32::MAX,
        ensures
            r is Ok,
            appended(*old(self), *final(self), map_header(1) + str_wire(variant@)),
    {
        prim::put_map_len(&mut self.writer, 1)?;
        prim::put_str(&mut self.writer, variant)?;
        proof {
            assert(self.bytes() =~= old(self).bytes() + (map_header(1) + str_wire(variant@)));
        }
        Ok(())
    }

    /// Opens a sequence. With a known element count the header goes out at
    /// once and the elements stream straight through this serializer; with an
    /// unknown count the returned framer buffers the elements and writes the
    /// header when it is closed.
    pub fn serialize_seq(&mut self, len: Option<usize>) -> (r: Result<
        SerializeSeq,
        SerializeError,
    >)
        requires
            len matches Some(n) ==> n <= u32::MAX,
        ensures
            r is Ok,
            len matches Some(n) ==> {
                &&& r matches Ok(s) && s is KnownLength
                &&& appended(*old(self), *final(self), crate::wire::array_header(n as int))
            },
            len is None ==> {
                &&& r matches Ok(s) && s.starts_empty_buffer()
                &&& appended(*old(self), *final(self), Seq::<u8>::empty())
            },
    {
        match len {
            Some(n) => {
                prim::put_array_len(&mut self.writer, n as u32)?;
                Ok(SerializeSeq::KnownLength(KnownLengthSeqSerializer::new()))
            },
            None => {
                proof {
                    assert(old(self).bytes() + Seq::<u8>::empty() =~= old(self).bytes());
                }
                Ok(SerializeSeq::UnKnownLength(UnKnownLengthSeqSerializer::new()))
            },
        }
    }

    /// Opens a map, with the same two framing strategies as a sequence.
    pub fn serialize_map(&mut self, len: Option<usize>) -> (r: Result<
        SerializeMap,
        SerializeError,
    >)
        requires
            len matches Some(n) ==> n <= u32::MAX,
        ensures
            r is Ok,
            len matches Some(n) ==> {
                &&& r matches Ok(s) && s is KnownLength
                &&& appended(*old(self), *final(self), map_header(n as int))
            },
            len is None ==> {
                &&& r matches Ok(s) && s.starts_empty_buffer()
                &&& appended(*old(self), *final(self), Seq::<u8>::empty())
            },
    {
        match len {
            Some(n) => {
                prim::put_map_len(&mut self.writer, n as u32)?;
                Ok(SerializeMap::KnownLength(KnownLengthMapSerializer::new()))
            },
            None => {
                proof {
                    assert(old(self).bytes() + Seq::<u8>::empty() =~= old(self).bytes());
                }
                Ok(SerializeMap::UnKnownLength(UnKnownLengthMapSerializer::new()))
            },
        }
    }

    /// Opens a tuple: no framing at all, the fields stream straight through
    /// this serializer in order.
    pub fn serialize_tuple(&mut self, len: usize) -> (r: Result<StructSerializer, SerializeError>)
        ensures
            r is Ok,
            appended(*old(self), *final(self), Seq::<u8>::empty()),
    {
        proof {
            assert(old(self).bytes() + Seq::<u8>::empty() =~= old(self).bytes());
        }
        Ok(StructSerializer::new())
    }

    /// Opens a tuple record: positional and framing-free, the name discarded.
    pub fn serialize_tuple_struct(&mut self, name: &str, len: usize) -> (r: Result<
        StructSerializer,
        SerializeError,
    >)
        ensures
            r is Ok,
            appended(*old(self), *final(self), Seq::<u8>::empty()),
    {
        self.serialize_tuple(len)
    }

    /// Opens a struct: positional and framing-free, field names discarded.
    pub fn serialize_struct(&mut self, name: &str, len: usize) -> (r: Result<
        StructSerializer,
        SerializeError,
    >)
        ensures
            r is Ok,
            appended(*old(self), *final(self), Seq::<u8>::empty()),
    {
        self.serialize_tuple(len)
    }

    /// Opens a tuple variant, externally tagged like a newtype variant: a map
    /// header of count one and the variant name go out, then the fields
    /// stream through this serializer framing-free as the entry's value.
    pub fn serialize_tuple_variant(
        &mut self,
        name: &str,
        variant_index: u32,
        variant: &str,
        len: usize,
    ) -> (r: Result<VariantSerializer, SerializeError>)
        requires
            variant.spec_bytes().len() <= u32::MAX,
        ensures
            r is Ok,
            appended(*old(self), *final(self), map_header(1) + str_wire(variant@)),
    {
        self.serialize_newtype_variant(name, variant_index, variant)?;
        Ok(VariantSerializer::new())
    }

    /// Opens a struct variant, encoded exactly like a tuple variant: the
    /// field names are discarded.
    pub fn serialize_struct_variant(
        &mut self,
        name: &str,
        variant_index: u32,
        variant: &str,
        len: usize,
    ) -> (r: Result<VariantSerializer, SerializeError>)
        requires
            variant.spec_bytes().len() <= u32::MAX,
        ensures
            r is Ok,
            appended(*old(self), *final(self), map_header(1) + str_wire(variant@)),
    {
        self.serialize_tuple_variant(name, variant_index, variant, len)
    }

    /// Appends already-encoded bytes verbatim. This is the escape hatch for
    /// value kinds the library does not encode itself (the float kinds, whose
    /// tagged bytes the caller obtains from the primitive codec directly).
    pub fn write_raw(&mut self, data: &[u8])
        ensures
            appended(*old(self), *final(self), data@),
    {
        let mut i: usize = 0;
        while i < data.len()
            invariant
                i <= data@.len(),
                self.writer@ == old(self).bytes() + data@.take(i as int),
                self.depth == old(self).depth(),
            decreases data@.len() - i,
        {
            let b = data[i];
            self.writer.push(b);
            i = i + 1;
            proof {
                assert(data@.take(i as int) =~= data@.take(i as int - 1) + seq![data@[i as int - 1]]);
                assert(old(self).bytes() + data@.take(i as int - 1) + seq![data@[i as int - 1]]
                    =~= old(self).bytes() + data@.take(i as int));
            }
        }
        proof {
            assert(data@.take(data@.len() as int) =~= data@);
        }
    }
}

} // verus!

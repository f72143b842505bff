//! The read-side handle: a byte source and a nesting-depth counter, with the
//! error taxonomy the decode direction reports through. The dispatch logic
//! that mirrors the encoder is not implemented yet.

use vstd::prelude::*;

verus! {

/// How a primitive read failed: while reading a tag marker, while reading the
/// data bytes behind one, or because the tag named an unexpected kind.
#[derive(Debug)]
pub enum ValueReadKind {
    InvalidMarkerRead,
    InvalidDataRead,
    TypeMismatch,
}

/// A fault while decoding: a free-form syntax fault raised by the caller, a
/// primitive-codec read fault, or a scalar-kind mismatch.
#[derive(Debug)]
pub enum DeserializeError {
    SyntaxError(String),
    InvalidValueRead(ValueReadKind),
    InvalidType(String),
}

/// A handle on one decode run: the bytes still to be read and a depth counter
/// that starts at zero for every instance.
pub struct Deserializer {
    reader: Vec<u8>,
    depth: usize,
}

impl Deserializer {
    /// The bytes this handle reads from.
    pub closed spec fn source(self) -> Seq<u8> {
        self.reader@
    }

    /// The current nesting depth.
    pub closed spec fn depth(self) -> usize {
        self.depth
    }

    pub fn new(read: Vec<u8>) -> (r: Self)
        ensures
            r.source() == read@,
            r.depth() == 0,
    {
        Deserializer { reader: read, depth: 0 }
    }
}

} // verus!

//! Map framing, with the same two strategies as sequences. An entry is its
//! key's wire form directly followed by its value's wire form; the entry
//! count in the header grows once per key, never per value, so entries must
//! be written as adjacent key-value pairs.

use vstd::prelude::*;

use crate::serializer::prim;
use crate::serializer::{appended, SerializeError, Serializer};
use crate::wire::map_header;

verus! {

/// The framer of a map whose entry count was declared up front: the header is
/// already out, keys and values stream through the parent serializer, and
/// nothing remains to do at the end.
pub struct KnownLengthMapSerializer {}

impl KnownLengthMapSerializer {
    pub(crate) fn new() -> Self {
        KnownLengthMapSerializer {  }
    }

    /// Closing the known-length path writes nothing.
    pub fn end(self) -> (r: Result<(), SerializeError>)
        ensures
            r is Ok,
    {
        Ok(())
    }
}

/// The framer of a map whose entry count is not known until all entries have
/// been produced: it owns a buffer serializer the keys and values are written
/// into, and the count of keys so far.
pub struct UnKnownLengthMapSerializer {
    map_holder: Serializer,
    length: u32,
}

impl UnKnownLengthMapSerializer {
    /// The bytes buffered so far.
    pub closed spec fn buffered(self) -> Seq<u8> {
        self.map_holder.bytes()
    }

    /// The number of entries counted so far.
    pub closed spec fn count(self) -> u32 {
        self.length
    }

    pub(crate) fn new() -> (r: Self)
        ensures
            r.count() == 0,
            r.buffered() == Seq::<u8>::empty(),
    {
        UnKnownLengthMapSerializer { map_holder: Serializer::new(Vec::new()), length: 0 }
    }

    /// The buffer serializer each key and each value is written into, in
    /// place of the parent serializer the known-length path would use.
    pub fn holder(&mut self) -> (r: &mut Serializer)
        ensures
            r.bytes() == old(self).buffered(),
            final(self).buffered() == final(r).bytes(),
            final(self).count() == old(self).count(),
    {
        &mut self.map_holder
    }

    /// Records that one key was written into the buffer. The entry count
    /// grows here and only here: writing the entry's value does not touch it.
    /// The count lives in a 32-bit header on the wire, so at its maximum a
    /// further entry is refused.
    pub fn count_entry(&mut self) -> (r: Result<(), SerializeError>)
        ensures
            old(self).count() < u32::MAX ==> {
                &&& r is Ok
                &&& final(self).count() == old(self).count() + 1
                &&& final(self).buffered() == old(self).buffered()
            },
            old(self).count() == u32::MAX ==> {
                &&& (r matches Err(e) && e is SyntaxError)
                &&& *final(self) == *old(self)
            },
    {
        if self.length == u32::MAX {
            Err(SerializeError::SyntaxError("map entry count exceeds the header limit".to_owned()))
        } else {
            self.length = self.length + 1;
            Ok(())
        }
    }

    /// Closes the map: the entry-count header for the keys actually counted
    /// reaches the parent sink first, then the buffered bytes, verbatim and
    /// in order. The buffer itself is consumed.
    pub fn end(self, parent: &mut Serializer) -> (r: Result<(), SerializeError>)
        ensures
            r is Ok,
            appended(*old(parent), *final(parent), map_header(self.count() as int) + self.buffered()),
    {
        let ghost buf = self.buffered();
        let ghost n = self.count();
        prim::put_map_len(&mut parent.writer, self.length)?;
        let buffered = self.map_holder.into_writer();
        parent.write_raw(buffered.as_slice());
        proof {
            assert(parent.bytes() =~= old(parent).bytes() + (map_header(n as int) + buf));
        }
        Ok(())
    }
}

/// One map being framed, by whichever of the two strategies its declared
/// length called for.
pub enum SerializeMap {
    KnownLength(KnownLengthMapSerializer),
    UnKnownLength(UnKnownLengthMapSerializer),
}

impl SerializeMap {
    /// The bytes that closing this framer appends to the parent sink: nothing
    /// on the known-length path, the count header plus the buffered entries
    /// on the unknown-length path.
    pub open spec fn end_bytes(self) -> Seq<u8> {
        match self {
            SerializeMap::KnownLength(_) => Seq::<u8>::empty(),
            SerializeMap::UnKnownLength(u) => map_header(u.count() as int) + u.buffered(),
        }
    }

    /// A freshly opened unknown-length framer: nothing buffered, count zero.
    pub open spec fn starts_empty_buffer(self) -> bool {
        self matches SerializeMap::UnKnownLength(u) && u.count() == 0 && u.buffered()
            == Seq::<u8>::empty()
    }

    pub fn end(self, parent: &mut Serializer) -> (r: Result<(), SerializeError>)
        ensures
            r is Ok,
            appended(*old(parent), *final(parent), self.end_bytes()),
    {
        match self {
            SerializeMap::KnownLength(s) => {
                let r = s.end();
                proof {
                    assert(old(parent).bytes() + Seq::<u8>::empty() =~= old(parent).bytes());
                }
                r
            },
            SerializeMap::UnKnownLength(s) => s.end(parent),
        }
    }
}

} // verus!

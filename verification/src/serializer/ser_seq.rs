//! Sequence framing. A sequence whose element count is known up front streams
//! its elements straight through the parent serializer, behind a header that
//! was already written. One whose count is unknown buffers every element in a
//! throwaway serializer over a fresh in-memory sink while counting them; when
//! it is closed, the now-known count header and the buffered bytes reach the
//! parent sink together, or — if the run was abandoned — not at all.

use vstd::prelude::*;

use crate::serializer::prim;
use crate::serializer::{appended, SerializeError, Serializer};
use crate::wire::array_header;

verus! {

/// The framer of a sequence whose element count was declared up front: the
/// header is already out, the elements stream through the parent serializer,
/// and nothing remains to do at the end.
pub struct KnownLengthSeqSerializer {}

impl KnownLengthSeqSerializer {
    pub(crate) fn new() -> Self {
        KnownLengthSeqSerializer {  }
    }

    /// Closing the known-length path writes nothing.
    pub fn end(self) -> (r: Result<(), SerializeError>)
        ensures
            r is Ok,
    {
        Ok(())
    }
}

/// The framer of a sequence whose element count is not known until all
/// elements have been produced: it owns a buffer serializer the elements are
/// written into, and the count of elements so far.
pub struct UnKnownLengthSeqSerializer {
    vec_holder: Serializer,
    length: u32,
}

impl UnKnownLengthSeqSerializer {
    /// The bytes buffered so far.
    pub closed spec fn buffered(self) -> Seq<u8> {
        self.vec_holder.bytes()
    }

    /// The number of elements counted so far.
    pub closed spec fn count(self) -> u32 {
        self.length
    }

    pub(crate) fn new() -> (r: Self)
        ensures
            r.count() == 0,
            r.buffered() == Seq::<u8>::empty(),
    {
        UnKnownLengthSeqSerializer { vec_holder: Serializer::new(Vec::new()), length: 0 }
    }

    /// The buffer serializer each element is written into, in place of the
    /// parent serializer the known-length path would use.
    pub fn holder(&mut self) -> (r: &mut Serializer)
        ensures
            r.bytes() == old(self).buffered(),
            final(self).buffered() == final(r).bytes(),
            final(self).count() == old(self).count(),
    {
        &mut self.vec_holder
    }

    /// Records that one element was written into the buffer. The count lives
    /// in a 32-bit header on the wire, so at its maximum a further element is
    /// refused.
    pub fn count_element(&mut self) -> (r: Result<(), SerializeError>)
        ensures
            old(self).count() < u32::MAX ==> {
                &&& r is Ok
                &&& final(self).count() == old(self).count() + 1
                &&& final(self).buffered() == old(self).buffered()
            },
            old(self).count() == u32::MAX ==> {
                &&& (r matches Err(e) && e is SyntaxError)
                &&& *final(self) == *old(self)
            },
    {
        if self.length == u32::MAX {
            Err(SerializeError::SyntaxError("sequence count exceeds the header limit".to_owned()))
        } else {
            self.length = self.length + 1;
            Ok(())
        }
    }

    /// Closes the sequence: the count header for the elements actually
    /// produced reaches the parent sink first, then the buffered bytes,
    /// verbatim and in order. The buffer itself is consumed.
    pub fn end(self, parent: &mut Serializer) -> (r: Result<(), SerializeError>)
        ensures
            r is Ok,
            appended(*old(parent), *final(parent), array_header(self.count() as int) + self.buffered()),
    {
        let ghost buf = self.buffered();
        let ghost n = self.count();
        prim::put_array_len(&mut parent.writer, self.length)?;
        let buffered = self.vec_holder.into_writer();
        parent.write_raw(buffered.as_slice());
        proof {
            assert(parent.bytes() =~= old(parent).bytes() + (array_header(n as int) + buf));
        }
        Ok(())
    }
}

/// One sequence being framed, by whichever of the two strategies its declared
/// length called for.
pub enum SerializeSeq {
    KnownLength(KnownLengthSeqSerializer),
    UnKnownLength(UnKnownLengthSeqSerializer),
}

impl SerializeSeq {
    /// The bytes that closing this framer appends to the parent sink: nothing
    /// on the known-length path, the count header plus the buffered elements
    /// on the unknown-length path.
    pub open spec fn end_bytes(self) -> Seq<u8> {
        match self {
            SerializeSeq::KnownLength(_) => Seq::<u8>::empty(),
            SerializeSeq::UnKnownLength(u) => array_header(u.count() as int) + u.buffered(),
        }
    }

    /// A freshly opened unknown-length framer: nothing buffered, count zero.
    pub open spec fn starts_empty_buffer(self) -> bool {
        self matches SerializeSeq::UnKnownLength(u) && u.count() == 0 && u.buffered()
            == Seq::<u8>::empty()
    }

    pub fn end(self, parent: &mut Serializer) -> (r: Result<(), SerializeError>)
        ensures
            r is Ok,
            appended(*old(parent), *final(parent), self.end_bytes()),
    {
        match self {
            SerializeSeq::KnownLength(s) => {
                let r = s.end();
                proof {
                    assert(old(parent).bytes() + Seq::<u8>::empty() =~= old(parent).bytes());
                }
                r
            },
            SerializeSeq::UnKnownLength(s) => s.end(parent),
        }
    }
}

} // verus!

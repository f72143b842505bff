//! Record framing for tuples, tuple records and structs: there is none. Each
//! field is written through the parent serializer in declaration order, with
//! no length header and no separating marker; field names are discarded. A
//! K-field record is therefore byte-for-byte indistinguishable from K values
//! written back to back, and a decoder must know the field count out of band.

use vstd::prelude::*;

use crate::serializer::SerializeError;

verus! {

/// The framer of a record being encoded positionally: it frames nothing, so
/// it carries nothing.
pub struct StructSerializer {}

impl StructSerializer {
    pub(crate) fn new() -> Self {
        StructSerializer {  }
    }

    /// Closing a record writes nothing.
    pub fn end(self) -> (r: Result<(), SerializeError>)
        ensures
            r is Ok,
    {
        Ok(())
    }
}

} // verus!

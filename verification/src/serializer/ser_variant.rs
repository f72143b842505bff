//! Framing for tuple-variant and struct-variant payloads. They follow the
//! externally tagged convention that newtype variants set: a map header of
//! count one and the variant name string go out when the variant is opened,
//! and the fields then stream through the parent serializer framing-free, as
//! the single entry's value, exactly as a record's fields would.

use vstd::prelude::*;

use crate::serializer::SerializeError;

verus! {

/// The framer of a variant payload: the single-entry-map tag is already out,
/// the fields stream through the parent serializer, and nothing remains to do
/// at the end.
pub struct VariantSerializer {}

impl VariantSerializer {
    pub(crate) fn new() -> Self {
        VariantSerializer {  }
    }

    /// Closing a variant payload writes nothing.
    pub fn end(self) -> (r: Result<(), SerializeError>)
        ensures
            r is Ok,
    {
        Ok(())
    }
}

} // verus!

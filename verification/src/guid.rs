//! Globally unique identifiers.
use vstd::prelude::*;

verus! {

/// A 128-bit identifier, in the field layout of the native structure. The
/// last eight bytes are held as one big-endian number.
#[derive(Clone, Copy, PartialEq, Eq, Debug, Structural)]
pub struct GUID {
    pub data1: u32,
    pub data2: u16,
    pub data3: u16,
    pub data4: u64,
}

impl GUID {
    /// Builds an identifier from its four fields.
    pub fn new(data1: u32, data2: u16, data3: u16, data4: u64) -> (g: GUID)
        ensures
            g == (GUID { data1, data2, data3, data4 }),
    {
        GUID { data1, data2, data3, data4 }
    }
}

} // verus!

//! Descriptions of raw memory that a native primitive handed out.
use vstd::prelude::*;

verus! {

/// A run of `len` bytes that starts at `addr`, to be read. Nothing in this
/// layer knows how far the memory behind `addr` really extends: the length is
/// the caller's claim.
#[derive(Clone, Copy, PartialEq, Eq, Debug, Structural)]
pub struct ByteView {
    pub addr: usize,
    pub len: usize,
}

/// A run of `len` bytes that starts at `addr`, to be read and written. The
/// length is the caller's claim, as for [`ByteView`].
#[derive(PartialEq, Eq, Debug, Structural)]
pub struct ByteViewMut {
    pub addr: usize,
    pub len: usize,
}

} // verus!

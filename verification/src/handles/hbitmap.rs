//! Bitmaps.
use crate::handles::traits::{Handle, HandleGdi};
use vstd::prelude::*;

verus! {

/// Handle to a bitmap, a graphics object.
#[derive(Clone, Copy, PartialEq, Eq, Debug, Structural)]
pub struct HBITMAP {
    pub ptr: usize,
}

impl Handle for HBITMAP {
    open spec fn addr(self) -> usize {
        self.ptr
    }

    proof fn same_addr_same_handle(a: Self, b: Self) {
    }

    fn null() -> (h: Self) {
        HBITMAP { ptr: 0 }
    }

    fn from_ptr(p: usize) -> (h: Self) {
        HBITMAP { ptr: p }
    }

    fn as_ptr(self) -> (p: usize) {
        self.ptr
    }
}

impl HandleGdi for HBITMAP {}

} // verus!

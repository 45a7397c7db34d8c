//! Icons.
use crate::handles::traits::Handle;
use vstd::prelude::*;

verus! {

/// Handle to an icon.
#[derive(Clone, Copy, PartialEq, Eq, Debug, Structural)]
pub struct HICON {
    pub ptr: usize,
}

impl Handle for HICON {
    open spec fn addr(self) -> usize {
        self.ptr
    }

    proof fn same_addr_same_handle(a: Self, b: Self) {
    }

    fn null() -> (h: Self) {
        HICON { ptr: 0 }
    }

    fn from_ptr(p: usize) -> (h: Self) {
        HICON { ptr: p }
    }

    fn as_ptr(self) -> (p: usize) {
        self.ptr
    }
}

} // verus!

//! The ITaskbarList interface.
use crate::co::IID;
use crate::guid::GUID;
use crate::ole::iunknown::ole_IUnknown;
use crate::ole::iunknown::IUnknown;
use vstd::prelude::*;

verus! {

/// The taskbar: the buttons it shows for windows.
pub struct ITaskbarList {
    /// The base interface.
    pub IUnknown: IUnknown,
}

impl ole_IUnknown for ITaskbarList {
    open spec fn addr(&self) -> usize {
        self.IUnknown.addr()
    }

    open spec fn interface() -> IID {
        IID(GUID { data1: 0x56fd_f342, data2: 0xfd6d, data3: 0x11d0, data4: 0x958a_0060_97c9_a090 })
    }

    proof fn same_addr_same_ref(a: &Self, b: &Self) {
        IUnknown::same_addr_same_ref(&a.IUnknown, &b.IUnknown);
    }

    fn iid() -> (iid: IID) {
        IID(GUID::new(0x56fd_f342, 0xfd6d, 0x11d0, 0x958a_0060_97c9_a090))
    }

    fn from_ptr(ppv: usize) -> (obj: Self) {
        ITaskbarList { IUnknown: IUnknown::from_ptr(ppv) }
    }

    fn ptr(&self) -> (ppv: usize) {
        self.IUnknown.ptr()
    }
}

} // verus!

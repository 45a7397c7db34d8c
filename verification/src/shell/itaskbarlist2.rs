//! The ITaskbarList2 interface.
use crate::co::IID;
use crate::guid::GUID;
use crate::ole::iunknown::ole_IUnknown;
use crate::shell::itaskbarlist::ITaskbarList;
use vstd::prelude::*;

verus! {

/// The taskbar, with the marking of full-screen windows.
pub struct ITaskbarList2 {
    /// The base interface.
    pub ITaskbarList: ITaskbarList,
}

impl ole_IUnknown for ITaskbarList2 {
    open spec fn addr(&self) -> usize {
        self.ITaskbarList.addr()
    }

    open spec fn interface() -> IID {
        IID(GUID { data1: 0x602d_4995, data2: 0xb13a, data3: 0x429b, data4: 0xa66e_1935_e44f_4317 })
    }

    proof fn same_addr_same_ref(a: &Self, b: &Self) {
        ITaskbarList::same_addr_same_ref(&a.ITaskbarList, &b.ITaskbarList);
    }

    fn iid() -> (iid: IID) {
        IID(GUID::new(0x602d_4995, 0xb13a, 0x429b, 0xa66e_1935_e44f_4317))
    }

    fn from_ptr(ppv: usize) -> (obj: Self) {
        ITaskbarList2 { ITaskbarList: ITaskbarList::from_ptr(ppv) }
    }

    fn ptr(&self) -> (ppv: usize) {
        self.ITaskbarList.ptr()
    }
}

} // verus!

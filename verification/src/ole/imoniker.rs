//! The moniker interface.
use crate::co::IID;
use crate::guid::GUID;
use crate::ole::iunknown::{ole_IUnknown, IUnknown};
use vstd::prelude::*;

verus! {

/// A name that can be bound to the component object it names.
pub struct IMoniker {
    /// The base interface.
    pub IUnknown: IUnknown,
}

impl ole_IUnknown for IMoniker {
    open spec fn addr(&self) -> usize {
        self.IUnknown.addr()
    }

    open spec fn interface() -> IID {
        IID(GUID { data1: 0x0000_000f, data2: 0x0000, data3: 0x0000, data4: 0xc000_0000_0000_0046 })
    }

    proof fn same_addr_same_ref(a: &Self, b: &Self) {
        IUnknown::same_addr_same_ref(&a.IUnknown, &b.IUnknown);
    }

    fn iid() -> (iid: IID) {
        IID(GUID::new(0x0000_000f, 0x0000, 0x0000, 0xc000_0000_0000_0046))
    }

    fn from_ptr(ppv: usize) -> (obj: Self) {
        IMoniker { IUnknown: IUnknown::from_ptr(ppv) }
    }

    fn ptr(&self) -> (ppv: usize) {
        self.IUnknown.ptr()
    }
}

} // verus!

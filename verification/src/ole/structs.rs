//! Structures handed to the creation functions.
use crate::co::{HRESULT, IID};
use vstd::prelude::*;

verus! {

/// The machine on which a component object is to be created.
pub struct COSERVERINFO {
    pub name: String,
}

/// One interface asked of a newly created object, and what came of it: the
/// interface pointer and the status of the query.
#[derive(Clone, Copy, PartialEq, Eq, Debug, Structural)]
pub struct MULTI_QI {
    pub iid: IID,
    pub itf: usize,
    pub hr: HRESULT,
}

impl MULTI_QI {
    /// A request for the interface `iid`, with nothing filled in yet.
    pub fn new(iid: IID) -> (qi: MULTI_QI)
        ensures
            qi == (MULTI_QI { iid, itf: 0, hr: HRESULT(0) }),
    {
        MULTI_QI { iid, itf: 0, hr: HRESULT(0) }
    }
}

} // verus!

//! The reference-counted capability beneath every component object.
use crate::aliases::HrResult;
use crate::co::{HRESULT, IID, S_OK};
use crate::guid::GUID;
use crate::native::{one_call, Bridge, ComVT, NativeCall};
use crate::privs::ok_to_hrresult;
use vstd::prelude::*;

verus! {

/// What a query for the interface of `T` on `object` left in the history and
/// handed back: one call, and the new reference if and only if its status was
/// the success status, else that status.
pub open spec fn queried<T: ole_IUnknown>(
    before: Seq<NativeCall>,
    after: Seq<NativeCall>,
    object: usize,
    r: HrResult<T>,
) -> bool {
    &&& one_call(before, after)
    &&& after.last() matches NativeCall::QueryInterface { object: o, iid, hr, out }
    &&& o == object
    &&& iid == T::interface()
    &&& match r {
        Ok(t) => hr == S_OK && t.addr() == out,
        Err(e) => hr != S_OK && e == HRESULT(hr),
    }
}

/// What taking one more reference to `object` left in the history: one
/// add-reference call on it, or nothing where there is no object.
pub open spec fn reference_added(
    before: Seq<NativeCall>,
    after: Seq<NativeCall>,
    object: usize,
) -> bool {
    if object == 0 {
        after == before
    } else {
        &&& one_call(before, after)
        &&& after.last() matches NativeCall::AddRef { object: o, .. }
        &&& o == object
    }
}

/// What giving up one reference to `object` left in the history: one release
/// call on it, or nothing where there is no object.
pub open spec fn reference_dropped(
    before: Seq<NativeCall>,
    after: Seq<NativeCall>,
    object: usize,
) -> bool {
    if object == 0 {
        after == before
    } else {
        &&& one_call(before, after)
        &&& after.last() matches NativeCall::Release { object: o, .. }
        &&& o == object
    }
}

/// By how much one call changes the number of references to `object` that
/// were taken through the bridge: an add-reference on it counts one up, a
/// release on it counts one down, and nothing else counts.
pub open spec fn ref_delta(call: NativeCall, object: usize) -> int {
    match call {
        NativeCall::AddRef { object: o, .. } => if o == object {
            1
        } else {
            0
        },
        NativeCall::Release { object: o, .. } => if o == object {
            -1
        } else {
            0
        },
        _ => 0,
    }
}

/// The add-reference calls on `object` in a history, less the release calls
/// on it.
pub open spec fn refs_taken(calls: Seq<NativeCall>, object: usize) -> int
    decreases calls.len(),
{
    if calls.len() == 0 {
        0
    } else {
        refs_taken(calls.drop_last(), object) + ref_delta(calls.last(), object)
    }
}

/// One more call moves the count of every object by what that call counts
/// for it.
pub proof fn one_call_counts_once(before: Seq<NativeCall>, after: Seq<NativeCall>, object: usize)
    requires
        one_call(before, after),
    ensures
        refs_taken(after, object) == refs_taken(before, object) + ref_delta(after.last(), object),
{
    assert(after.drop_last() =~= before);
}

/// A second reference to an object counts its references up by exactly one,
/// and leaves the count of every other object as it was.
pub proof fn clone_adds_one(
    before: Seq<NativeCall>,
    after: Seq<NativeCall>,
    object: usize,
    other: usize,
)
    requires
        object != 0,
        reference_added(before, after, object),
    ensures
        refs_taken(after, object) == refs_taken(before, object) + 1,
        other != object ==> refs_taken(after, other) == refs_taken(before, other),
{
    one_call_counts_once(before, after, object);
    one_call_counts_once(before, after, other);
}

/// Giving a reference up counts the references of its object down by exactly
/// one, and leaves the count of every other object as it was.
pub proof fn release_drops_one(
    before: Seq<NativeCall>,
    after: Seq<NativeCall>,
    object: usize,
    other: usize,
)
    requires
        object != 0,
        reference_dropped(before, after, object),
    ensures
        refs_taken(after, object) == refs_taken(before, object) - 1,
        other != object ==> refs_taken(after, other) == refs_taken(before, other),
{
    one_call_counts_once(before, after, object);
    one_call_counts_once(before, after, other);
}

/// Taking a second reference and giving it up again leaves every count as it
/// was; of the null reference neither calls anything.
pub proof fn clone_then_release_is_neutral(
    c0: Seq<NativeCall>,
    c1: Seq<NativeCall>,
    c2: Seq<NativeCall>,
    object: usize,
    any: usize,
)
    requires
        reference_added(c0, c1, object),
        reference_dropped(c1, c2, object),
    ensures
        refs_taken(c2, any) == refs_taken(c0, any),
        object == 0 ==> c2 == c0,
{
    if object != 0 {
        one_call_counts_once(c0, c1, any);
        one_call_counts_once(c1, c2, any);
    }
}

/// A reference to a component object. A value of such a type owns one count
/// of the object it names, unless it is the null reference, which names none.
pub trait ole_IUnknown: Sized {
    /// The address of the object; zero for the null reference.
    spec fn addr(&self) -> usize;

    /// The interface that the type speaks.
    spec fn interface() -> IID;

    /// A reference is its address and nothing else.
    proof fn same_addr_same_ref(a: &Self, b: &Self)
        requires
            a.addr() == b.addr(),
        ensures
            a == b,
    ;

    /// The identifier of the interface that the type speaks.
    fn iid() -> (iid: IID)
        ensures
            iid == Self::interface(),
    ;

    /// Takes `ppv` for a reference of this type, owning one count.
    fn from_ptr(ppv: usize) -> (obj: Self)
        ensures
            obj.addr() == ppv,
    ;

    /// The address of the object.
    fn ptr(&self) -> (ppv: usize)
        ensures
            ppv == self.addr(),
    ;

    /// The null reference: an output slot for a call to fill.
    fn null() -> (obj: Self)
        ensures
            obj.addr() == 0,
    {
        Self::from_ptr(0)
    }

    /// A second reference to the same object, which adds one to its count.
    fn clone_ref<N: ComVT>(&self, sys: &mut Bridge<N>) -> (copy: Self)
        ensures
            copy.addr() == self.addr(),
            reference_added(old(sys)@, final(sys)@, self.addr()),
    {
        let ppv = self.ptr();
        if ppv != 0 {
            let _ = sys.add_ref(ppv);
        }
        Self::from_ptr(ppv)
    }

    /// Gives the reference up, which takes one from the object's count. The
    /// value is gone after the call: nothing more is asked of the object
    /// through it.
    fn Release<N: ComVT>(self, sys: &mut Bridge<N>)
        ensures
            reference_dropped(old(sys)@, final(sys)@, self.addr()),
    {
        let ppv = self.ptr();
        if ppv != 0 {
            let _ = sys.release(ppv);
        }
    }
}

/// Asks `obj` for another of its interfaces. On success the result owns a
/// count of its own.
pub fn QueryInterface<S: ole_IUnknown, T: ole_IUnknown, N: ComVT>(
    obj: &S,
    sys: &mut Bridge<N>,
) -> (r: HrResult<T>)
    ensures
        queried(old(sys)@, final(sys)@, obj.addr(), r),
{
    let iid = T::iid();
    let (hr, out) = sys.query_interface(obj.ptr(), &iid);
    match ok_to_hrresult(hr) {
        Ok(()) => Ok(T::from_ptr(out)),
        Err(e) => Err(e),
    }
}

/// The base interface of every component object.
pub struct IUnknown {
    ppv: usize,
}

impl ole_IUnknown for IUnknown {
    closed spec fn addr(&self) -> usize {
        self.ppv
    }

    open spec fn interface() -> IID {
        IID(GUID { data1: 0x0000_0000, data2: 0x0000, data3: 0x0000, data4: 0xc000_0000_0000_0046 })
    }

    proof fn same_addr_same_ref(a: &Self, b: &Self) {
    }

    fn iid() -> (iid: IID) {
        IID(GUID::new(0x0000_0000, 0x0000, 0x0000, 0xc000_0000_0000_0046))
    }

    fn from_ptr(ppv: usize) -> (obj: Self) {
        IUnknown { ppv }
    }

    fn ptr(&self) -> (ppv: usize) {
        self.ppv
    }
}

} // verus!

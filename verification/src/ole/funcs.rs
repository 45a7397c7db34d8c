//! Free functions of the component-object library.
use crate::aliases::HrResult;
use crate::co::{CLSCTX, CLSID, COINIT, HRESULT, RPC_E_CHANGED_MODE, S_FALSE, S_OK};
use crate::guid::GUID;
use crate::native::{one_call, Bridge, ComVT, Kernel32, NativeCall, Ole32};
use crate::native::server_name;
use crate::ole::guard::{
    is_initialized, scope_ended, unlocked, CoLockObjectExternalGuard, CoUninitializeGuard,
    ScopeGuard,
};
use crate::ole::imoniker::IMoniker;
use crate::ole::iunknown::{ole_IUnknown, reference_dropped, IUnknown};
use crate::ole::structs::{COSERVERINFO, MULTI_QI};
use crate::privs::{block_as_hrresult, null_to_hrresult, ok_to_hrresult};
use vstd::prelude::*;

verus! {

/// What a status and the value that came with it mean: the value for the one
/// success status, else the status.
pub open spec fn status_with<T>(hr: i32, value: T) -> HrResult<T> {
    if hr == S_OK {
        Ok(value)
    } else {
        Err(HRESULT(hr))
    }
}

/// The result is a reference to `object` if `hr` is the success status, and
/// is `hr` if not.
pub open spec fn status_with_ref<T: ole_IUnknown>(hr: i32, object: usize, r: HrResult<T>) -> bool {
    match r {
        Ok(t) => hr == S_OK && t.addr() == object,
        Err(e) => hr != S_OK && e == HRESULT(hr),
    }
}

/// What became of the caller's slot for the controlling object after a
/// successful creation. Without a slot nothing happens. With one, the slot
/// holds the new controlling object, and the reference it held before was
/// given up.
pub open spec fn outer_handed_over(
    before: Seq<NativeCall>,
    after: Seq<NativeCall>,
    slot_before: Option<usize>,
    slot_after: Option<usize>,
    outer: usize,
) -> bool {
    match slot_before {
        None => after == before && slot_after is None,
        Some(previous) => slot_after == Some(outer) && reference_dropped(before, after, previous),
    }
}

/// What a creation of an object of class `clsid`, asked for the interface of
/// `T`, left in the history and handed back. The creation primitive is called
/// once, with the outer flag up exactly if the caller gave a slot. On any
/// status but success the call is all that happened, the slot is untouched
/// and the status is the error. On success the result is the new object and
/// the slot was served as [`outer_handed_over`] says.
pub open spec fn instance_created<T: ole_IUnknown>(
    before: Seq<NativeCall>,
    after: Seq<NativeCall>,
    clsid: CLSID,
    slot_before: Option<usize>,
    slot_after: Option<usize>,
    cls_context: u32,
    r: HrResult<T>,
) -> bool {
    let k = before.len() as int;
    &&& after.len() > k
    &&& after[k] matches NativeCall::CoCreateInstance {
        clsid: c,
        with_outer,
        cls_context: x,
        iid,
        hr,
        object,
        outer,
    }
    &&& c == clsid
    &&& with_outer == (slot_before is Some)
    &&& x == cls_context
    &&& iid == T::interface()
    &&& status_with_ref(hr, object, r)
    &&& if hr == S_OK {
        outer_handed_over(before.push(after[k]), after, slot_before, slot_after, outer)
    } else {
        after == before.push(after[k]) && slot_after == slot_before
    }
}

/// As [`instance_created`], for a creation that asks for several interfaces
/// at once: `asked` is what the caller's list held when it was handed to the
/// primitive and `filled` what it holds after.
pub open spec fn instances_created(
    before: Seq<NativeCall>,
    after: Seq<NativeCall>,
    clsid: CLSID,
    slot_before: Option<usize>,
    slot_after: Option<usize>,
    cls_context: u32,
    server: Option<Seq<char>>,
    asked: Seq<MULTI_QI>,
    filled: Seq<MULTI_QI>,
    r: HrResult<()>,
) -> bool {
    let k = before.len() as int;
    &&& after.len() > k
    &&& after[k] matches NativeCall::CoCreateInstanceEx {
        clsid: c,
        with_outer,
        cls_context: x,
        server: s,
        asked: a,
        hr,
        outer,
        filled: f,
    }
    &&& c == clsid
    &&& with_outer == (slot_before is Some)
    &&& x == cls_context
    &&& s == server
    &&& a == asked
    &&& f == filled
    &&& r == status_with(hr, ())
    &&& if hr == S_OK {
        outer_handed_over(before.push(after[k]), after, slot_before, slot_after, outer)
    } else {
        after == before.push(after[k]) && slot_after == slot_before
    }
}

/// Puts the new controlling object into the caller's slot, if there is one,
/// and gives up the reference that the slot held.
fn hand_over_outer<N: ComVT>(sys: &mut Bridge<N>, iunk_outer: Option<&mut IUnknown>, outer: usize)
    ensures
        match iunk_outer {
            Some(slot) => outer_handed_over(
                old(sys)@,
                final(sys)@,
                Some(slot.addr()),
                Some(final(slot).addr()),
                outer,
            ),
            None => outer_handed_over(old(sys)@, final(sys)@, None, None, outer),
        },
{
    match iunk_outer {
        Some(slot) => {
            let previous = IUnknown::from_ptr(slot.ptr());
            *slot = IUnknown::from_ptr(outer);
            previous.Release(sys);
        },
        None => {},
    }
}

/// Creates an object of class `clsid` and returns a reference to it of type
/// `T`. Where `iunk_outer` is given, the slot receives the controlling
/// object on success.
pub fn CoCreateInstance<T: ole_IUnknown, N: Ole32 + ComVT>(
    sys: &mut Bridge<N>,
    clsid: &CLSID,
    iunk_outer: Option<&mut IUnknown>,
    cls_context: CLSCTX,
) -> (r: HrResult<T>)
    ensures
        match iunk_outer {
            Some(slot) => instance_created(
                old(sys)@,
                final(sys)@,
                *clsid,
                Some(slot.addr()),
                Some(final(slot).addr()),
                cls_context.0,
                r,
            ),
            None => instance_created(old(sys)@, final(sys)@, *clsid, None, None, cls_context.0, r),
        },
{
    let iid = T::iid();
    let (hr, object, outer) = sys.co_create_instance(
        clsid,
        iunk_outer.is_some(),
        cls_context.raw(),
        &iid,
    );
    match ok_to_hrresult(hr) {
        Ok(()) => {
            hand_over_outer(sys, iunk_outer, outer);
            Ok(T::from_ptr(object))
        },
        Err(e) => Err(e),
    }
}

/// Creates an object of class `clsid`, on the machine `server_info` names if
/// one is given, and asks it for every interface listed in `results`, which
/// the primitive fills in place.
pub fn CoCreateInstanceEx<N: Ole32 + ComVT>(
    sys: &mut Bridge<N>,
    clsid: &CLSID,
    iunk_outer: Option<&mut IUnknown>,
    cls_context: CLSCTX,
    server_info: Option<&COSERVERINFO>,
    results: &mut [MULTI_QI],
) -> (r: HrResult<()>)
    ensures
        match iunk_outer {
            Some(slot) => instances_created(
                old(sys)@,
                final(sys)@,
                *clsid,
                Some(slot.addr()),
                Some(final(slot).addr()),
                cls_context.0,
                server_name(server_info),
                old(results)@,
                final(results)@,
                r,
            ),
            None => instances_created(
                old(sys)@,
                final(sys)@,
                *clsid,
                None,
                None,
                cls_context.0,
                server_name(server_info),
                old(results)@,
                final(results)@,
                r,
            ),
        },
{
    let (hr, outer) = sys.co_create_instance_ex(
        clsid,
        iunk_outer.is_some(),
        cls_context.raw(),
        server_info,
        results,
    );
    match ok_to_hrresult(hr) {
        Ok(()) => {
            hand_over_outer(sys, iunk_outer, outer);
            Ok(())
        },
        Err(e) => Err(e),
    }
}

/// Looks up the class identifier registered under a programmatic identifier.
pub fn CLSIDFromProgID<N: Ole32>(sys: &mut Bridge<N>, prog_id: &str) -> (r: HrResult<CLSID>)
    ensures
        one_call(old(sys)@, final(sys)@),
        final(sys)@.last() matches NativeCall::CLSIDFromProgID { prog_id: p, hr, clsid }
            && p == prog_id@ && r == status_with(hr, clsid),
{
    let (hr, clsid) = sys.clsid_from_prog_id(prog_id);
    match ok_to_hrresult(hr) {
        Ok(()) => Ok(clsid),
        Err(e) => Err(e),
    }
}

/// Looks up the class identifier registered under a programmatic identifier,
/// letting the subsystem install the class where it can.
pub fn CLSIDFromProgIDEx<N: Ole32>(sys: &mut Bridge<N>, prog_id: &str) -> (r: HrResult<CLSID>)
    ensures
        one_call(old(sys)@, final(sys)@),
        final(sys)@.last() matches NativeCall::CLSIDFromProgIDEx { prog_id: p, hr, clsid }
            && p == prog_id@ && r == status_with(hr, clsid),
{
    let (hr, clsid) = sys.clsid_from_prog_id_ex(prog_id);
    match ok_to_hrresult(hr) {
        Ok(()) => Ok(clsid),
        Err(e) => Err(e),
    }
}

/// Reads a class identifier from its text form.
pub fn CLSIDFromString<N: Ole32>(sys: &mut Bridge<N>, prog_id: &str) -> (r: HrResult<CLSID>)
    ensures
        one_call(old(sys)@, final(sys)@),
        final(sys)@.last() matches NativeCall::CLSIDFromString { text, hr, clsid }
            && text == prog_id@ && r == status_with(hr, clsid),
{
    let (hr, clsid) = sys.clsid_from_string(prog_id);
    match ok_to_hrresult(hr) {
        Ok(()) => Ok(clsid),
        Err(e) => Err(e),
    }
}

/// Asks for a new globally unique identifier.
pub fn CoCreateGuid<N: Ole32>(sys: &mut Bridge<N>) -> (r: HrResult<GUID>)
    ensures
        one_call(old(sys)@, final(sys)@),
        final(sys)@.last() matches NativeCall::CoCreateGuid { hr, guid }
            && r == status_with(hr, guid),
{
    let (hr, guid) = sys.co_create_guid();
    match ok_to_hrresult(hr) {
        Ok(()) => Ok(guid),
        Err(e) => Err(e),
    }
}

/// What an initialization with the flags `coinit` left in the history and
/// handed back: one call, and an armed guard that holds its status if and
/// only if that status is one of the three after which the subsystem must be
/// uninitialized, else the status as the error.
pub open spec fn initialized(
    before: Seq<NativeCall>,
    after: Seq<NativeCall>,
    coinit: COINIT,
    r: HrResult<CoUninitializeGuard>,
) -> bool {
    &&& one_call(before, after)
    &&& after.last() matches NativeCall::CoInitializeEx { coinit: c, hr }
    &&& c == coinit.0
    &&& match r {
        Ok(guard) => is_initialized(hr) && guard.status() == HRESULT(hr) && guard.armed(),
        Err(e) => !is_initialized(hr) && e == HRESULT(hr),
    }
}

/// A guard for the subsystem comes out of an initialization exactly if the
/// primitive reported one of the three statuses that count as success; the
/// guard is then armed and holds that status.
pub proof fn uninitialize_guard_only_after_success(
    before: Seq<NativeCall>,
    after: Seq<NativeCall>,
    coinit: COINIT,
    r: HrResult<CoUninitializeGuard>,
)
    requires
        initialized(before, after, coinit, r),
    ensures
        after.last() is CoInitializeEx,
        r is Ok <==> is_initialized(after.last()->CoInitializeEx_hr),
        r matches Ok(guard) ==> guard.armed() && is_initialized(guard.status().0),
{
}

/// From a successful initialization to the end of the guard's scope, however
/// often that scope is ended after the first time, the history grows by the
/// initialization and by exactly one uninitialize after it.
pub proof fn initialize_then_release(
    c0: Seq<NativeCall>,
    c1: Seq<NativeCall>,
    c2: Seq<NativeCall>,
    c3: Seq<NativeCall>,
    coinit: COINIT,
    g0: CoUninitializeGuard,
    g1: CoUninitializeGuard,
    g2: CoUninitializeGuard,
)
    requires
        initialized(c0, c1, coinit, Ok(g0)),
        scope_ended(&g0, &g1, c1, c2),
        scope_ended(&g1, &g2, c2, c3),
    ensures
        c3 == c0.push(c1.last()).push(NativeCall::CoUninitialize),
        c1.last() matches NativeCall::CoInitializeEx { coinit: c, hr } && c == coinit.0
            && is_initialized(hr),
{
}

/// Initializes the component-object subsystem for the calling thread. The
/// guard that comes back uninitializes it when released.
pub fn CoInitializeEx<N: Ole32>(
    sys: &mut Bridge<N>,
    coinit: COINIT,
) -> (r: HrResult<CoUninitializeGuard>)
    ensures
        initialized(old(sys)@, final(sys)@, coinit, r),
{
    let hr = sys.co_initialize_ex(coinit.raw());
    match init_status(hr) {
        Ok(status) => Ok(CoUninitializeGuard::new(status)),
        Err(e) => Err(e),
    }
}

/// Sorts the statuses of the initialize primitive: the three after which the
/// subsystem is in use by the caller are successes, every other one is an
/// error.
pub fn init_status(hr: i32) -> (r: HrResult<HRESULT>)
    ensures
        r == (if is_initialized(hr) {
            Ok::<HRESULT, HRESULT>(HRESULT(hr))
        } else {
            Err::<HRESULT, HRESULT>(HRESULT(hr))
        }),
{
    if hr == S_OK || hr == S_FALSE || hr == RPC_E_CHANGED_MODE {
        Ok(HRESULT(hr))
    } else {
        Err(HRESULT(hr))
    }
}

/// What locking `obj` left in the history and handed back: one call of the
/// lock primitive on that object, with the lock flag up, and an armed guard
/// on the object if and only if the status was the success status.
pub open spec fn locked<'a, T: ole_IUnknown>(
    before: Seq<NativeCall>,
    after: Seq<NativeCall>,
    object: usize,
    r: HrResult<CoLockObjectExternalGuard<'a, T>>,
) -> bool {
    &&& one_call(before, after)
    &&& after.last() matches NativeCall::CoLockObjectExternal {
        object: o,
        lock,
        last_unlock_releases,
        hr,
    }
    &&& o == object
    &&& lock
    &&& !last_unlock_releases
    &&& match r {
        Ok(guard) => hr == S_OK && guard.target() == object && guard.armed(),
        Err(e) => hr != S_OK && e == HRESULT(hr),
    }
}

/// A guard for a lock comes out of a lock call exactly if the primitive
/// reported the success status; the guard is then armed and aims at the
/// object that was locked.
pub proof fn lock_guard_only_after_success<'a, T: ole_IUnknown>(
    before: Seq<NativeCall>,
    after: Seq<NativeCall>,
    object: usize,
    r: HrResult<CoLockObjectExternalGuard<'a, T>>,
)
    requires
        locked(before, after, object, r),
    ensures
        after.last() is CoLockObjectExternal,
        r is Ok <==> after.last()->CoLockObjectExternal_hr == S_OK,
        r matches Ok(guard) ==> guard.armed() && guard.target() == object,
{
}

/// From a successful lock to the end of the guard's scope, however often
/// that scope is ended after the first time, the history grows by the lock
/// and by exactly one unlock of the same object after it.
pub proof fn lock_then_release<'a, T: ole_IUnknown>(
    c0: Seq<NativeCall>,
    c1: Seq<NativeCall>,
    c2: Seq<NativeCall>,
    c3: Seq<NativeCall>,
    object: usize,
    g0: CoLockObjectExternalGuard<'a, T>,
    g1: CoLockObjectExternalGuard<'a, T>,
    g2: CoLockObjectExternalGuard<'a, T>,
)
    requires
        locked(c0, c1, object, Ok(g0)),
        scope_ended(&g0, &g1, c1, c2),
        scope_ended(&g1, &g2, c2, c3),
    ensures
        c3.len() == c0.len() + 2,
        c3 == c0.push(c1.last()).push(c3.last()),
        unlocked(c1, c3, object),
{
}

/// Locks a component object so that it stays in memory. The guard that comes
/// back unlocks that object when released.
pub fn CoLockObjectExternal<'a, T: ole_IUnknown, N: Ole32>(
    sys: &mut Bridge<N>,
    obj: &'a T,
) -> (r: HrResult<CoLockObjectExternalGuard<'a, T>>)
    ensures
        locked(old(sys)@, final(sys)@, obj.addr(), r),
{
    let hr = sys.co_lock_object_external(obj.ptr(), true, false);
    match ok_to_hrresult(hr) {
        Ok(()) => Ok(CoLockObjectExternalGuard::new(obj)),
        Err(e) => Err(e),
    }
}

/// Allocates a block of `cb` bytes with the task allocator. The block must
/// be given back with [`CoTaskMemFree`].
pub fn CoTaskMemAlloc<N: Ole32>(sys: &mut Bridge<N>, cb: usize) -> (r: HrResult<usize>)
    ensures
        one_call(old(sys)@, final(sys)@),
        final(sys)@.last() matches NativeCall::CoTaskMemAlloc { cb: c, block }
            && c == cb && r == block_as_hrresult(block),
{
    let block = sys.co_task_mem_alloc(cb);
    null_to_hrresult(block)
}

/// Gives a block back to the task allocator.
pub fn CoTaskMemFree<N: Ole32>(sys: &mut Bridge<N>, pv: usize)
    ensures
        final(sys)@ == old(sys)@.push(NativeCall::CoTaskMemFree { block: pv }),
{
    sys.co_task_mem_free(pv)
}

/// Changes the size of a block of the task allocator to `cb` bytes. The
/// block that comes back must be given back with [`CoTaskMemFree`].
pub fn CoTaskMemRealloc<N: Ole32>(sys: &mut Bridge<N>, pv: usize, cb: usize) -> (r: HrResult<usize>)
    ensures
        one_call(old(sys)@, final(sys)@),
        final(sys)@.last() matches NativeCall::CoTaskMemRealloc { block, cb: c, moved }
            && block == pv && c == cb && r == block_as_hrresult(moved),
{
    let moved = sys.co_task_mem_realloc(pv, cb);
    null_to_hrresult(moved)
}

/// Turns the status and the output slot of a moniker creation into the
/// moniker or the error.
pub fn moniker_or_status(hr: i32, moniker: usize) -> (r: HrResult<IMoniker>)
    ensures
        status_with_ref(hr, moniker, r),
{
    match ok_to_hrresult(hr) {
        Ok(()) => Ok(IMoniker::from_ptr(moniker)),
        Err(e) => Err(e),
    }
}

/// Creates a moniker that names a class.
pub fn CreateClassMoniker<N: Ole32>(sys: &mut Bridge<N>, clsid: &CLSID) -> (r: HrResult<IMoniker>)
    ensures
        one_call(old(sys)@, final(sys)@),
        final(sys)@.last() matches NativeCall::CreateClassMoniker { clsid: c, hr, moniker }
            && c == *clsid && status_with_ref(hr, moniker, r),
{
    let (hr, moniker) = sys.create_class_moniker(clsid);
    moniker_or_status(hr, moniker)
}

/// Creates a moniker that names a file by its path.
pub fn CreateFileMoniker<N: Ole32>(sys: &mut Bridge<N>, path_name: &str) -> (r: HrResult<IMoniker>)
    ensures
        one_call(old(sys)@, final(sys)@),
        final(sys)@.last() matches NativeCall::CreateFileMoniker { path, hr, moniker }
            && path == path_name@ && status_with_ref(hr, moniker, r),
{
    let (hr, moniker) = sys.create_file_moniker(path_name);
    moniker_or_status(hr, moniker)
}

/// Creates a moniker that names an item within a container, with the
/// delimiter that sets the item's name apart.
pub fn CreateItemMoniker<N: Ole32>(
    sys: &mut Bridge<N>,
    delim: &str,
    item: &str,
) -> (r: HrResult<IMoniker>)
    ensures
        one_call(old(sys)@, final(sys)@),
        final(sys)@.last() matches NativeCall::CreateItemMoniker { delim: d, item: i, hr, moniker }
            && d == delim@ && i == item@ && status_with_ref(hr, moniker, r),
{
    let (hr, moniker) = sys.create_item_moniker(delim, item);
    moniker_or_status(hr, moniker)
}

/// Creates a moniker that stands for a marshaled reference to `unk`.
pub fn CreateObjrefMoniker<U: ole_IUnknown, N: Ole32>(
    sys: &mut Bridge<N>,
    unk: &U,
) -> (r: HrResult<IMoniker>)
    ensures
        one_call(old(sys)@, final(sys)@),
        final(sys)@.last() matches NativeCall::CreateObjrefMoniker { unk: u, hr, moniker }
            && u == unk.addr() && status_with_ref(hr, moniker, r),
{
    let (hr, moniker) = sys.create_objref_moniker(unk.ptr());
    moniker_or_status(hr, moniker)
}

/// Creates a moniker that wraps a pointer to `unk`.
pub fn CreatePointerMoniker<U: ole_IUnknown, N: Ole32>(
    sys: &mut Bridge<N>,
    unk: &U,
) -> (r: HrResult<IMoniker>)
    ensures
        one_call(old(sys)@, final(sys)@),
        final(sys)@.last() matches NativeCall::CreatePointerMoniker { unk: u, hr, moniker }
            && u == unk.addr() && status_with_ref(hr, moniker, r),
{
    let (hr, moniker) = sys.create_pointer_moniker(unk.ptr());
    moniker_or_status(hr, moniker)
}

/// What asking for the text form of `clsid` left in the history and handed
/// back. The primitive is called once. On any status but success that is all,
/// and the status is the error. On success the text is read from the address
/// that the primitive allocated, that address is then given back to the
/// task allocator, and the text is the result.
pub open spec fn clsid_as_string(
    before: Seq<NativeCall>,
    after: Seq<NativeCall>,
    clsid: CLSID,
    r: HrResult<String>,
) -> bool {
    let k = before.len() as int;
    &&& after.len() > k
    &&& after[k] matches NativeCall::StringFromCLSID { clsid: c, hr, address }
    &&& c == clsid
    &&& match r {
        Ok(name) => {
            &&& hr == S_OK
            &&& after == before.push(after[k]).push(
                NativeCall::ReadWideString { address, text: name@ },
            ).push(NativeCall::CoTaskMemFree { block: address })
        },
        Err(e) => hr != S_OK && e == HRESULT(hr) && after == before.push(after[k]),
    }
}

/// The text form of a class identifier.
pub fn StringFromCLSID<N: Ole32 + Kernel32>(
    sys: &mut Bridge<N>,
    clsid: &CLSID,
) -> (r: HrResult<String>)
    ensures
        clsid_as_string(old(sys)@, final(sys)@, *clsid, r),
{
    let (hr, address) = sys.string_from_clsid(clsid);
    match ok_to_hrresult(hr) {
        Ok(()) => {
            let name = sys.read_wide_string(address);
            sys.co_task_mem_free(address);
            Ok(name)
        },
        Err(e) => Err(e),
    }
}

} // verus!

//! Guards: single-owner values that stand for a resource which must be given
//! back exactly once.
//!
//! A guard is armed from its construction until it is released or leaked,
//! whichever comes first. Releasing an armed guard invokes its one release
//! primitive once; releasing it again, or after a leak, invokes nothing. No
//! release reports a failure.
use crate::aliases::HrResult;
use crate::co::{E_OUTOFMEMORY, HRESULT, RPC_E_CHANGED_MODE, S_FALSE, S_OK};
use crate::mem::{ByteView, ByteViewMut};
use crate::native::{one_call, Bridge, NativeCall, Ole32};
use crate::ole::funcs::CoTaskMemAlloc;
use crate::ole::iunknown::ole_IUnknown;
use vstd::prelude::*;

verus! {

/// The statuses of the initialize primitive after which the subsystem must be
/// uninitialized: plain success, already initialized with the same model, and
/// already initialized with another model.
pub open spec fn is_initialized(hr: i32) -> bool {
    hr == S_OK || hr == S_FALSE || hr == RPC_E_CHANGED_MODE
}

/// What [`ScopeGuard::release`] makes of a guard and of the history: the
/// guard is disarmed; if it was armed, exactly one primitive was called, the
/// one that gives its resource back; if it was not, nothing was called.
pub open spec fn scope_ended<G: ScopeGuard>(
    guard_before: &G,
    guard_after: &G,
    calls_before: Seq<NativeCall>,
    calls_after: Seq<NativeCall>,
) -> bool {
    &&& !guard_after.armed()
    &&& if guard_before.armed() {
        one_call(calls_before, calls_after) && guard_before.gives_back(calls_after.last())
    } else {
        calls_after == calls_before
    }
}

/// A guard of any kind. It pairs one acquisition with the one primitive that
/// gives the resource back, and owes that primitive exactly once.
pub trait ScopeGuard: Sized {
    /// What a leak hands over to the caller.
    type Leaked;

    /// Whether the release is still owed.
    spec fn armed(&self) -> bool;

    /// Whether `call` is the primitive that gives back the resource of this
    /// guard.
    spec fn gives_back(&self, call: NativeCall) -> bool;

    /// Whether the release is still owed.
    fn is_armed(&self) -> (armed: bool)
        ensures
            armed == self.armed(),
    ;

    /// Ends the guard's scope: gives the resource back if that is still
    /// owed, and never again after. A failure of the primitive is dropped.
    fn release<N: Ole32>(&mut self, sys: &mut Bridge<N>)
        ensures
            !final(self).armed(),
            old(self).armed() ==> one_call(old(sys)@, final(sys)@) && old(self).gives_back(
                final(sys)@.last(),
            ),
            !old(self).armed() ==> final(sys)@ == old(sys)@,
    ;

    /// Takes the duty to give the resource back away from the guard, and
    /// hands the resource to the caller.
    fn leak(&mut self) -> (resource: Self::Leaked)
        ensures
            !final(self).armed(),
    ;
}

/// Whatever the kind of guard: ending the scope of an armed guard, and then
/// ending it again, calls the release primitive once and nothing else.
pub proof fn release_fires_once<G: ScopeGuard>(
    g0: &G,
    g1: &G,
    g2: &G,
    c0: Seq<NativeCall>,
    c1: Seq<NativeCall>,
    c2: Seq<NativeCall>,
)
    requires
        g0.armed(),
        scope_ended(g0, g1, c0, c1),
        scope_ended(g1, g2, c1, c2),
    ensures
        one_call(c0, c2),
        g0.gives_back(c2.last()),
        !g2.armed(),
{
}

/// Whatever the kind of guard: once a guard was disarmed, by a leak or by an
/// earlier release, ending its scope calls nothing.
pub proof fn disarmed_guard_is_silent<G: ScopeGuard>(
    g0: &G,
    g1: &G,
    c0: Seq<NativeCall>,
    c1: Seq<NativeCall>,
)
    requires
        !g0.armed(),
        scope_ended(g0, g1, c0, c1),
    ensures
        c1 == c0,
{
}

/// Stands for one successful initialization of the component-object
/// subsystem; its release uninitializes.
pub struct CoUninitializeGuard {
    hr: HRESULT,
    armed: bool,
}

impl CoUninitializeGuard {
    #[verifier::type_invariant]
    spec fn holds_success(&self) -> bool {
        is_initialized(self.hr.0)
    }

    /// The status that the initialization returned.
    pub closed spec fn status(&self) -> HRESULT {
        self.hr
    }

    /// A guard over an initialization that returned `hr`. Only the
    /// initialization itself makes one.
    pub(crate) fn new(hr: HRESULT) -> (guard: Self)
        requires
            is_initialized(hr.0),
        ensures
            guard.status() == hr,
            guard.armed(),
    {
        CoUninitializeGuard { hr, armed: true }
    }

    /// The status that the initialization returned: always one of the three
    /// that count as success.
    pub fn hr(&self) -> (hr: HRESULT)
        ensures
            hr == self.status(),
            is_initialized(hr.0),
    {
        proof {
            use_type_invariant(self);
        }
        self.hr
    }

    /// What a release made of the guard `self` and of the history: the guard
    /// is disarmed, and the uninitialize primitive was called once if the
    /// guard was armed and not at all if it was not.
    pub open spec fn released(
        &self,
        after: &Self,
        calls_before: Seq<NativeCall>,
        calls_after: Seq<NativeCall>,
    ) -> bool {
        &&& !after.armed()
        &&& after.status() == self.status()
        &&& calls_after == (if self.armed() {
            calls_before.push(NativeCall::CoUninitialize)
        } else {
            calls_before
        })
    }

    /// What a leak made of the guard `self`: the guard is disarmed.
    pub open spec fn leaked(&self, after: &Self) -> bool {
        !after.armed() && after.status() == self.status()
    }
}

impl ScopeGuard for CoUninitializeGuard {
    type Leaked = ();

    closed spec fn armed(&self) -> bool {
        self.armed
    }

    open spec fn gives_back(&self, call: NativeCall) -> bool {
        call is CoUninitialize
    }

    fn is_armed(&self) -> (armed: bool) {
        self.armed
    }

    /// Uninitializes the subsystem if that is still owed.
    fn release<N: Ole32>(&mut self, sys: &mut Bridge<N>)
        ensures
            old(self).released(final(self), old(sys)@, final(sys)@),
    {
        proof {
            use_type_invariant(&*self);
        }
        if self.armed {
            sys.co_uninitialize();
            self.armed = false;
        }
    }

    /// Takes the duty to uninitialize away from the guard.
    fn leak(&mut self) -> (resource: ())
        ensures
            old(self).leaked(final(self)),
    {
        proof {
            use_type_invariant(&*self);
        }
        self.armed = false;
    }
}

/// What unlocking `object` left in the history: one call of the lock
/// primitive on that object, with the lock flag down and the last unlock
/// releasing.
pub open spec fn unlocked(before: Seq<NativeCall>, after: Seq<NativeCall>, object: usize) -> bool {
    &&& one_call(before, after)
    &&& after.last() matches NativeCall::CoLockObjectExternal {
        object: o,
        lock,
        last_unlock_releases,
        ..
    }
    &&& o == object
    &&& !lock
    &&& last_unlock_releases
}

/// Stands for one external lock on a component object; its release unlocks
/// that same object. The guard borrows the object and does not own it.
pub struct CoLockObjectExternalGuard<'a, T: ole_IUnknown> {
    com_obj: &'a T,
    armed: bool,
}

impl<'a, T: ole_IUnknown> CoLockObjectExternalGuard<'a, T> {
    /// The address of the object that was locked.
    pub closed spec fn target(&self) -> usize {
        self.com_obj.addr()
    }

    /// A guard over a lock that was taken on `com_obj`. Only the lock call
    /// itself makes one.
    pub(crate) fn new(com_obj: &'a T) -> (guard: Self)
        ensures
            guard.target() == com_obj.addr(),
            guard.armed(),
    {
        CoLockObjectExternalGuard { com_obj, armed: true }
    }

    /// What a release made of the guard `self` and of the history: the guard
    /// is disarmed, and the object was unlocked once if the guard was armed
    /// and not at all if it was not.
    pub open spec fn released(
        &self,
        after: &Self,
        calls_before: Seq<NativeCall>,
        calls_after: Seq<NativeCall>,
    ) -> bool {
        &&& !after.armed()
        &&& after.target() == self.target()
        &&& if self.armed() {
            unlocked(calls_before, calls_after, self.target())
        } else {
            calls_after == calls_before
        }
    }

    /// What a leak made of the guard `self`: the guard is disarmed.
    pub open spec fn leaked(&self, after: &Self) -> bool {
        !after.armed() && after.target() == self.target()
    }
}

impl<'a, T: ole_IUnknown> ScopeGuard for CoLockObjectExternalGuard<'a, T> {
    type Leaked = ();

    closed spec fn armed(&self) -> bool {
        self.armed
    }

    open spec fn gives_back(&self, call: NativeCall) -> bool {
        &&& call matches NativeCall::CoLockObjectExternal { object, lock, last_unlock_releases, .. }
        &&& object == self.target()
        &&& !lock
        &&& last_unlock_releases
    }

    fn is_armed(&self) -> (armed: bool) {
        self.armed
    }

    /// Unlocks the object if that is still owed. The status of the unlock is
    /// dropped.
    fn release<N: Ole32>(&mut self, sys: &mut Bridge<N>)
        ensures
            old(self).released(final(self), old(sys)@, final(sys)@),
    {
        if self.armed {
            let _ = sys.co_lock_object_external(self.com_obj.ptr(), false, true);
            self.armed = false;
        }
    }

    /// Takes the duty to unlock away from the guard.
    fn leak(&mut self) -> (resource: ())
        ensures
            old(self).leaked(final(self)),
    {
        self.armed = false;
    }
}

/// Owns one block of the task allocator; its release frees the block. The
/// size is what the caller asked for, not something the guard can check.
pub struct CoTaskMemFreeGuard {
    pmem: usize,
    sz: usize,
}

impl CoTaskMemFreeGuard {
    /// The address of the block; zero once the block was freed or leaked.
    pub closed spec fn block(&self) -> usize {
        self.pmem
    }

    /// The size that was asked for; zero once the block was freed or leaked.
    pub closed spec fn size(&self) -> usize {
        self.sz
    }

    /// A guard over the block `pmem` of `sz` bytes. Only the allocation
    /// itself makes one.
    pub(crate) fn new(pmem: usize, sz: usize) -> (guard: Self)
        ensures
            guard.block() == pmem,
            guard.size() == sz,
    {
        CoTaskMemFreeGuard { pmem, sz }
    }

    /// The address of the block.
    pub fn as_ptr(&self) -> (pmem: usize)
        ensures
            pmem == self.block(),
    {
        self.pmem
    }

    /// The size that was asked for.
    pub fn len(&self) -> (sz: usize)
        ensures
            sz == self.size(),
    {
        self.sz
    }

    /// The block, to be read.
    pub fn as_slice(&self) -> (bytes: ByteView)
        ensures
            bytes == (ByteView { addr: self.block(), len: self.size() }),
    {
        ByteView { addr: self.pmem, len: self.sz }
    }

    /// The block, to be read and written.
    pub fn as_mut_slice(&mut self) -> (bytes: ByteViewMut)
        ensures
            bytes == (ByteViewMut { addr: old(self).block(), len: old(self).size() }),
            *final(self) == *old(self),
    {
        ByteViewMut { addr: self.pmem, len: self.sz }
    }

    /// What a release made of the guard `self` and of the history: the guard
    /// holds nothing, and the block was freed once if the guard held one and
    /// nothing was called if it did not.
    pub open spec fn released(
        &self,
        after: &Self,
        calls_before: Seq<NativeCall>,
        calls_after: Seq<NativeCall>,
    ) -> bool {
        &&& after.block() == 0
        &&& after.size() == 0
        &&& calls_after == (if self.armed() {
            calls_before.push(NativeCall::CoTaskMemFree { block: self.block() })
        } else {
            calls_before
        })
    }

    /// What a leak made of the guard `self`: the guard holds nothing.
    pub open spec fn leaked(&self, after: &Self) -> bool {
        after.block() == 0 && after.size() == 0
    }

    /// What an allocation of `cb` bytes left in the history and handed back:
    /// one call of the allocator, and a guard that holds the block with the
    /// size asked for if and only if the allocator answered with a block,
    /// else out-of-memory.
    pub open spec fn allocated(
        before: Seq<NativeCall>,
        after: Seq<NativeCall>,
        cb: usize,
        r: HrResult<CoTaskMemFreeGuard>,
    ) -> bool {
        &&& one_call(before, after)
        &&& after.last() matches NativeCall::CoTaskMemAlloc { cb: c, block }
        &&& c == cb
        &&& match r {
            Ok(guard) => block != 0 && guard.block() == block && guard.size() == cb,
            Err(e) => block == 0 && e == HRESULT(E_OUTOFMEMORY),
        }
    }

    /// A guard for a block comes out of an allocation exactly if the
    /// allocator answered with a block; the guard is then armed.
    pub proof fn only_after_success(
        before: Seq<NativeCall>,
        after: Seq<NativeCall>,
        cb: usize,
        r: HrResult<CoTaskMemFreeGuard>,
    )
        requires
            Self::allocated(before, after, cb, r),
        ensures
            after.last() is CoTaskMemAlloc,
            r is Ok <==> after.last()->CoTaskMemAlloc_block != 0,
            r matches Ok(guard) ==> guard.armed(),
            r matches Err(e) ==> e == HRESULT(E_OUTOFMEMORY),
    {
    }

    /// From a successful allocation to the end of the guard's scope, however
    /// often that scope is ended after the first time, the history grows by
    /// the allocation and by exactly one free of the block after it.
    pub proof fn allocate_then_release(
        c0: Seq<NativeCall>,
        c1: Seq<NativeCall>,
        c2: Seq<NativeCall>,
        c3: Seq<NativeCall>,
        cb: usize,
        g0: CoTaskMemFreeGuard,
        g1: CoTaskMemFreeGuard,
        g2: CoTaskMemFreeGuard,
    )
        requires
            Self::allocated(c0, c1, cb, Ok(g0)),
            scope_ended(&g0, &g1, c1, c2),
            scope_ended(&g1, &g2, c2, c3),
        ensures
            c3 == c0.push(c1.last()).push(NativeCall::CoTaskMemFree { block: g0.block() }),
            c1.last() == (NativeCall::CoTaskMemAlloc { cb, block: g0.block() }),
    {
    }

    /// Allocates a block of `cb` bytes with the task allocator and puts it
    /// under a guard.
    pub fn allocate<N: Ole32>(sys: &mut Bridge<N>, cb: usize) -> (r: HrResult<CoTaskMemFreeGuard>)
        ensures
            Self::allocated(old(sys)@, final(sys)@, cb, r),
    {
        match CoTaskMemAlloc(sys, cb) {
            Ok(block) => Ok(CoTaskMemFreeGuard::new(block, cb)),
            Err(e) => Err(e),
        }
    }
}

impl ScopeGuard for CoTaskMemFreeGuard {
    type Leaked = (usize, usize);

    /// The release is owed as long as the guard holds a block.
    open spec fn armed(&self) -> bool {
        self.block() != 0
    }

    open spec fn gives_back(&self, call: NativeCall) -> bool {
        call == (NativeCall::CoTaskMemFree { block: self.block() })
    }

    fn is_armed(&self) -> (armed: bool) {
        self.pmem != 0
    }

    /// Frees the block if the guard still holds one.
    fn release<N: Ole32>(&mut self, sys: &mut Bridge<N>)
        ensures
            old(self).released(final(self), old(sys)@, final(sys)@),
    {
        if self.pmem != 0 {
            sys.co_task_mem_free(self.pmem);
        }
        self.pmem = 0;
        self.sz = 0;
    }

    /// Hands the block and its size over to the caller, who must free it; the
    /// guard holds nothing after.
    fn leak(&mut self) -> (resource: (usize, usize))
        ensures
            resource == (old(self).block(), old(self).size()),
            old(self).leaked(final(self)),
    {
        let resource = (self.pmem, self.sz);
        self.pmem = 0;
        self.sz = 0;
        resource
    }
}

} // verus!

use std::cell::RefCell;
use std::collections::HashMap;

use winsafe::co::{
    CLSCTX, CLSCTX_INPROC_SERVER, CLSCTX_LOCAL_SERVER, CLSID, COINIT, COINIT_APARTMENTTHREADED,
    COINIT_DISABLE_OLE1DDE, COINIT_MULTITHREADED, CO_E_CLASSSTRING, E_FAIL, E_NOINTERFACE,
    E_OUTOFMEMORY, HRESULT, IID, REGDB_E_CLASSNOTREG, RPC_E_CHANGED_MODE, S_FALSE, S_OK,
};
use winsafe::mem::{ByteView, ByteViewMut};
use winsafe::native::{Bridge, ComVT, Kernel32, Ole32};
use winsafe::ole::guard::{CoTaskMemFreeGuard, CoUninitializeGuard, ScopeGuard};
use winsafe::shell::ITaskbarList3;
use winsafe::{
    ole_IUnknown, CLSIDFromProgID, CLSIDFromProgIDEx, CLSIDFromString, CoCreateGuid,
    CoCreateInstance, CoCreateInstanceEx, CoInitializeEx, CoLockObjectExternal, CoTaskMemAlloc,
    CoTaskMemFree, CoTaskMemRealloc, CreateClassMoniker, CreateFileMoniker, CreateItemMoniker,
    CreateObjrefMoniker, CreatePointerMoniker, HrResult, IMoniker, IUnknown, QueryInterface,
    StringFromCLSID, COSERVERINFO, GUID, MULTI_QI,
};

/// A simulated component-object layer. It keeps a reference count for every
/// live object, marks an object destroyed when its count reaches zero, and
/// otherwise answers as scripted.
#[derive(Default)]
struct Sim {
    asked: Vec<String>,
    hr: i32,
    out: usize,
    outer: usize,
    block: usize,
    text: String,
    clsid: Option<CLSID>,
    counts: HashMap<usize, u32>,
    destroyed: Vec<usize>,
    touched_after_destroy: u32,
    initialized: u32,
    uninitialized: u32,
    locks: HashMap<usize, i32>,
    unlock_hr: i32,
    freed: Vec<usize>,
}

impl Sim {
    fn with_object(object: usize, count: u32) -> Sim {
        let mut sim = Sim::default();
        sim.counts.insert(object, count);
        sim
    }

    fn touch(&mut self, object: usize) {
        if self.destroyed.contains(&object) {
            self.touched_after_destroy += 1;
        }
    }

    fn born(&mut self, object: usize) {
        if object != 0 {
            *self.counts.entry(object).or_insert(0) += 1;
        }
    }

    fn count(&self, object: usize) -> u32 {
        self.counts.get(&object).copied().unwrap_or(0)
    }
}

fn taskbar_class() -> CLSID {
    CLSID(GUID::new(0x56fd_f344, 0xfd6d, 0x11d0, 0x958a_0060_97c9_a090))
}

impl ComVT for Sim {
    fn QueryInterface(&mut self, object: usize, iid: &IID) -> (i32, usize) {
        self.touch(object);
        self.asked.push(format!("QueryInterface({object}, {:#010x})", iid.0.data1));
        if self.hr == S_OK {
            self.born(self.out);
            (S_OK, self.out)
        } else {
            (self.hr, 0)
        }
    }

    fn AddRef(&mut self, object: usize) -> u32 {
        self.touch(object);
        self.asked.push(format!("AddRef({object})"));
        self.born(object);
        self.count(object)
    }

    fn Release(&mut self, object: usize) -> u32 {
        self.touch(object);
        self.asked.push(format!("Release({object})"));
        let left = self.count(object).saturating_sub(1);
        if left == 0 {
            self.counts.remove(&object);
            self.destroyed.push(object);
        } else {
            self.counts.insert(object, left);
        }
        left
    }

    fn RegisterTab(&mut self, _: usize, _: usize, _: usize) -> i32 {
        self.hr
    }

    fn SetProgressState(&mut self, _: usize, _: usize, _: u32) -> i32 {
        self.hr
    }

    fn SetProgressValue(&mut self, _: usize, _: usize, _: u64, _: u64) -> i32 {
        self.hr
    }

    fn SetTabActive(&mut self, _: usize, _: usize, _: usize, _: u32) -> i32 {
        self.hr
    }

    fn SetTabOrder(&mut self, _: usize, _: usize, _: usize) -> i32 {
        self.hr
    }
}

impl Kernel32 for Sim {
    fn CloseHandle(&mut self, _: usize) -> bool {
        true
    }

    fn GetLastError(&mut self) -> u32 {
        0
    }

    fn MapViewOfFile(&mut self, _: usize, _: u32, _: u32, _: u32, _: i64) -> usize {
        0
    }

    fn UnmapViewOfFile(&mut self, _: usize) -> bool {
        true
    }

    fn ReadWideString(&mut self, address: usize) -> String {
        self.asked.push(format!("ReadWideString({address})"));
        if self.freed.contains(&address) {
            String::from("<freed>")
        } else {
            self.text.clone()
        }
    }
}

impl Ole32 for Sim {
    fn CLSIDFromProgID(&mut self, prog_id: &str) -> (i32, CLSID) {
        self.asked.push(format!("CLSIDFromProgID({prog_id})"));
        (self.hr, self.clsid.unwrap_or(CLSID(GUID::new(0, 0, 0, 0))))
    }

    fn CLSIDFromProgIDEx(&mut self, prog_id: &str) -> (i32, CLSID) {
        self.asked.push(format!("CLSIDFromProgIDEx({prog_id})"));
        (self.hr, self.clsid.unwrap_or(CLSID(GUID::new(0, 0, 0, 0))))
    }

    fn CLSIDFromString(&mut self, text: &str) -> (i32, CLSID) {
        self.asked.push(format!("CLSIDFromString({text})"));
        (self.hr, self.clsid.unwrap_or(CLSID(GUID::new(0, 0, 0, 0))))
    }

    fn CoCreateGuid(&mut self) -> (i32, GUID) {
        self.asked.push(format!("CoCreateGuid"));
        (self.hr, GUID::new(0xdead_beef, 0x1234, 0x5678, 0x0102_0304_0506_0708))
    }

    fn CoCreateInstance(
        &mut self,
        clsid: &CLSID,
        with_outer: bool,
        cls_context: u32,
        iid: &IID,
    ) -> (i32, usize, usize) {
        self.asked.push(format!(
            "CoCreateInstance({:#010x}, {with_outer}, {cls_context}, {:#010x})",
            clsid.0.data1, iid.0.data1
        ));
        if self.hr != S_OK {
            return (self.hr, 0, 0);
        }
        self.born(self.out);
        if with_outer {
            self.born(self.outer);
            (S_OK, self.out, self.outer)
        } else {
            (S_OK, self.out, 0)
        }
    }

    fn CoCreateInstanceEx(
        &mut self,
        clsid: &CLSID,
        with_outer: bool,
        cls_context: u32,
        server: Option<&COSERVERINFO>,
        results: &mut [MULTI_QI],
    ) -> (i32, usize) {
        self.asked.push(format!(
            "CoCreateInstanceEx({:#010x}, {with_outer}, {cls_context}, {:?}, {})",
            clsid.0.data1,
            server.map(|s| s.name.as_str()),
            results.len()
        ));
        if self.hr != S_OK {
            return (self.hr, 0);
        }
        for (at, qi) in results.iter_mut().enumerate() {
            if qi.iid.0.data1 == 0xffff_ffff {
                qi.hr = HRESULT(E_NOINTERFACE);
                qi.itf = 0;
            } else {
                qi.hr = HRESULT(S_OK);
                qi.itf = self.out + at;
            }
        }
        if with_outer {
            self.born(self.outer);
            (S_OK, self.outer)
        } else {
            (S_OK, 0)
        }
    }

    fn CoInitializeEx(&mut self, coinit: u32) -> i32 {
        self.asked.push(format!("CoInitializeEx({coinit})"));
        if self.hr == S_OK || self.hr == S_FALSE || self.hr == RPC_E_CHANGED_MODE {
            self.initialized += 1;
        }
        self.hr
    }

    fn CoUninitialize(&mut self) {
        self.asked.push(format!("CoUninitialize"));
        self.uninitialized += 1;
    }

    fn CoLockObjectExternal(
        &mut self,
        object: usize,
        lock: bool,
        last_unlock_releases: bool,
    ) -> i32 {
        self.asked.push(format!("CoLockObjectExternal({object}, {lock}, {last_unlock_releases})"));
        if lock {
            if self.hr == S_OK {
                *self.locks.entry(object).or_insert(0) += 1;
            }
            self.hr
        } else {
            *self.locks.entry(object).or_insert(0) -= 1;
            self.unlock_hr
        }
    }

    fn CoTaskMemAlloc(&mut self, cb: usize) -> usize {
        self.asked.push(format!("CoTaskMemAlloc({cb})"));
        self.block
    }

    fn CoTaskMemFree(&mut self, block: usize) {
        self.asked.push(format!("CoTaskMemFree({block})"));
        self.freed.push(block);
    }

    fn CoTaskMemRealloc(&mut self, block: usize, cb: usize) -> usize {
        self.asked.push(format!("CoTaskMemRealloc({block}, {cb})"));
        self.block
    }

    fn CreateClassMoniker(&mut self, clsid: &CLSID) -> (i32, usize) {
        self.asked.push(format!("CreateClassMoniker({:#010x})", clsid.0.data1));
        (self.hr, self.out)
    }

    fn CreateFileMoniker(&mut self, path: &str) -> (i32, usize) {
        self.asked.push(format!("CreateFileMoniker({path})"));
        (self.hr, self.out)
    }

    fn CreateItemMoniker(&mut self, delim: &str, item: &str) -> (i32, usize) {
        self.asked.push(format!("CreateItemMoniker({delim}, {item})"));
        (self.hr, self.out)
    }

    fn CreateObjrefMoniker(&mut self, unk: usize) -> (i32, usize) {
        self.asked.push(format!("CreateObjrefMoniker({unk})"));
        (self.hr, self.out)
    }

    fn CreatePointerMoniker(&mut self, unk: usize) -> (i32, usize) {
        self.asked.push(format!("CreatePointerMoniker({unk})"));
        (self.hr, self.out)
    }

    fn StringFromCLSID(&mut self, clsid: &CLSID) -> (i32, usize) {
        self.asked.push(format!("StringFromCLSID({:#010x})", clsid.0.data1));
        (self.hr, self.out)
    }
}

fn asked(sys: &Bridge<Sim>) -> Vec<&str> {
    sys.native().asked.iter().map(|s| s.as_str()).collect()
}

fn ptr_of<T: ole_IUnknown>(r: &HrResult<T>) -> Result<usize, HRESULT> {
    match r {
        Ok(obj) => Ok(obj.ptr()),
        Err(e) => Err(*e),
    }
}

// References

#[test]
fn reference_wraps_the_address_it_is_given() {
    assert_eq!(IUnknown::from_ptr(0x40).ptr(), 0x40);
    assert_eq!(IUnknown::null().ptr(), 0);
    assert_eq!(IMoniker::from_ptr(0x50).ptr(), 0x50);
    assert_eq!(IMoniker::from_ptr(0x50).IUnknown.ptr(), 0x50);
    assert_eq!(IMoniker::null().ptr(), 0);
}

#[test]
fn every_interface_has_its_own_identifier() {
    assert_eq!(IUnknown::iid(), IID(GUID::new(0, 0, 0, 0xc000_0000_0000_0046)));
    assert_eq!(IMoniker::iid(), IID(GUID::new(0xf, 0, 0, 0xc000_0000_0000_0046)));
    assert_eq!(
        ITaskbarList3::iid(),
        IID(GUID::new(0xea1a_fb91, 0x9e28, 0x4b86, 0x90e9_9e9f_8a5e_efaf))
    );
}

#[test]
fn clone_counts_up_by_exactly_one() {
    let mut sys = Bridge::new(Sim::with_object(0x40, 1));
    let first = IUnknown::from_ptr(0x40);
    let second = first.clone_ref(&mut sys);
    assert_eq!(second.ptr(), 0x40);
    assert_eq!(sys.native().count(0x40), 2);
    assert_eq!(asked(&sys), ["AddRef(64)"]);
    let third = second.clone_ref(&mut sys);
    assert_eq!(third.ptr(), 0x40);
    assert_eq!(sys.native().count(0x40), 3);
}

#[test]
fn release_counts_down_by_exactly_one() {
    let mut sys = Bridge::new(Sim::with_object(0x40, 3));
    IUnknown::from_ptr(0x40).Release(&mut sys);
    assert_eq!(sys.native().count(0x40), 2);
    assert_eq!(asked(&sys), ["Release(64)"]);
    assert!(sys.native().destroyed.is_empty());
}

#[test]
fn object_is_destroyed_at_zero_and_not_touched_again() {
    let mut sys = Bridge::new(Sim::with_object(0x40, 1));
    let first = IUnknown::from_ptr(0x40);
    let second = first.clone_ref(&mut sys);
    first.Release(&mut sys);
    assert_eq!(sys.native().count(0x40), 1);
    assert!(sys.native().destroyed.is_empty());
    second.Release(&mut sys);
    assert_eq!(sys.native().count(0x40), 0);
    assert_eq!(sys.native().destroyed, [0x40]);
    assert_eq!(sys.native().touched_after_destroy, 0);
    assert_eq!(asked(&sys), ["AddRef(64)", "Release(64)", "Release(64)"]);
}

#[test]
fn null_reference_is_neither_counted_nor_released() {
    let mut sys = Bridge::new(Sim::default());
    let none = IUnknown::null();
    let copy = none.clone_ref(&mut sys);
    assert_eq!(copy.ptr(), 0);
    copy.Release(&mut sys);
    none.Release(&mut sys);
    assert!(sys.native().asked.is_empty());
}

#[test]
fn clone_of_a_derived_reference_counts_the_same_object() {
    let mut sys = Bridge::new(Sim::with_object(0x90, 1));
    let bar = ITaskbarList3::from_ptr(0x90);
    let copy = bar.clone_ref(&mut sys);
    assert_eq!(copy.ptr(), 0x90);
    assert_eq!(copy.ITaskbarList2.ITaskbarList.IUnknown.ptr(), 0x90);
    assert_eq!(sys.native().count(0x90), 2);
    copy.Release(&mut sys);
    bar.Release(&mut sys);
    assert_eq!(sys.native().destroyed, [0x90]);
}

#[test]
fn query_interface_hands_back_a_counted_reference() {
    let mut sys = Bridge::new(Sim { out: 0x48, ..Sim::with_object(0x40, 1) });
    let unk = IUnknown::from_ptr(0x40);
    let moniker = QueryInterface::<IUnknown, IMoniker, Sim>(&unk, &mut sys);
    assert_eq!(ptr_of(&moniker), Ok(0x48));
    assert_eq!(sys.native().count(0x48), 1);
    assert_eq!(asked(&sys), ["QueryInterface(64, 0x0000000f)"]);
    moniker.unwrap().Release(&mut sys);
    assert_eq!(sys.native().destroyed, [0x48]);
}

#[test]
fn query_interface_that_fails_is_the_status() {
    let mut sys = Bridge::new(Sim { hr: E_NOINTERFACE, out: 0x48, ..Sim::with_object(0x40, 1) });
    let unk = IUnknown::from_ptr(0x40);
    let bar = QueryInterface::<IUnknown, ITaskbarList3, Sim>(&unk, &mut sys);
    assert_eq!(ptr_of(&bar), Err(HRESULT(E_NOINTERFACE)));
    assert_eq!(asked(&sys), ["QueryInterface(64, 0xea1afb91)"]);
    assert_eq!(sys.native().count(0x48), 0);
}

// Creation

#[test]
fn create_instance_hands_back_the_new_object() {
    let mut sys = Bridge::new(Sim { out: 0x90, ..Sim::default() });
    let bar = CoCreateInstance::<ITaskbarList3, Sim>(
        &mut sys,
        &taskbar_class(),
        None,
        CLSCTX(CLSCTX_INPROC_SERVER),
    );
    assert_eq!(ptr_of(&bar), Ok(0x90));
    assert_eq!(asked(&sys), ["CoCreateInstance(0x56fdf344, false, 1, 0xea1afb91)"]);
    assert_eq!(sys.native().count(0x90), 1);
}

#[test]
fn create_instance_that_fails_is_the_status() {
    let mut sys = Bridge::new(Sim { hr: REGDB_E_CLASSNOTREG, out: 0x90, ..Sim::default() });
    let bar = CoCreateInstance::<ITaskbarList3, Sim>(
        &mut sys,
        &taskbar_class(),
        None,
        CLSCTX(CLSCTX_INPROC_SERVER),
    );
    assert_eq!(ptr_of(&bar), Err(HRESULT(REGDB_E_CLASSNOTREG)));
    assert_eq!(sys.native().asked.len(), 1);
}

#[test]
fn create_instance_treats_an_informational_status_as_failure() {
    let mut sys = Bridge::new(Sim { hr: S_FALSE, out: 0x90, ..Sim::default() });
    let unk =
        CoCreateInstance::<IUnknown, Sim>(&mut sys, &taskbar_class(), None, CLSCTX(CLSCTX_LOCAL_SERVER));
    assert_eq!(ptr_of(&unk), Err(HRESULT(S_FALSE)));
}

#[test]
fn create_instance_fills_an_empty_outer_slot() {
    let mut sys = Bridge::new(Sim { out: 0x90, outer: 0xa0, ..Sim::default() });
    let mut outer = IUnknown::null();
    let unk = CoCreateInstance::<IUnknown, Sim>(
        &mut sys,
        &taskbar_class(),
        Some(&mut outer),
        CLSCTX(CLSCTX_LOCAL_SERVER),
    );
    assert_eq!(ptr_of(&unk), Ok(0x90));
    assert_eq!(outer.ptr(), 0xa0);
    assert_eq!(asked(&sys), ["CoCreateInstance(0x56fdf344, true, 4, 0x00000000)"]);
}

#[test]
fn create_instance_gives_up_what_the_outer_slot_held() {
    let mut sys = Bridge::new(Sim { out: 0x90, outer: 0xa0, ..Sim::with_object(0x70, 1) });
    let mut outer = IUnknown::from_ptr(0x70);
    let unk = CoCreateInstance::<IUnknown, Sim>(
        &mut sys,
        &taskbar_class(),
        Some(&mut outer),
        CLSCTX(CLSCTX_INPROC_SERVER),
    );
    assert_eq!(ptr_of(&unk), Ok(0x90));
    assert_eq!(outer.ptr(), 0xa0);
    assert_eq!(
        asked(&sys),
        ["CoCreateInstance(0x56fdf344, true, 1, 0x00000000)", "Release(112)"]
    );
    assert_eq!(sys.native().destroyed, [0x70]);
    assert_eq!(sys.native().count(0xa0), 1);
}

#[test]
fn create_instance_that_fails_leaves_the_outer_slot() {
    let mut sys = Bridge::new(Sim { hr: E_FAIL, outer: 0xa0, ..Sim::with_object(0x70, 1) });
    let mut outer = IUnknown::from_ptr(0x70);
    let unk = CoCreateInstance::<IUnknown, Sim>(
        &mut sys,
        &taskbar_class(),
        Some(&mut outer),
        CLSCTX(CLSCTX_INPROC_SERVER),
    );
    assert_eq!(ptr_of(&unk), Err(HRESULT(E_FAIL)));
    assert_eq!(outer.ptr(), 0x70);
    assert_eq!(sys.native().count(0x70), 1);
    assert_eq!(sys.native().asked.len(), 1);
}

#[test]
fn create_instance_ex_lets_the_native_layer_fill_the_list() {
    let mut sys = Bridge::new(Sim { out: 0x100, ..Sim::default() });
    let server = COSERVERINFO { name: String::from("build-7") };
    let mut results = [
        MULTI_QI::new(IUnknown::iid()),
        MULTI_QI::new(IID(GUID::new(0xffff_ffff, 0, 0, 0))),
        MULTI_QI::new(IMoniker::iid()),
    ];
    let r = CoCreateInstanceEx(
        &mut sys,
        &taskbar_class(),
        None,
        CLSCTX(CLSCTX_LOCAL_SERVER),
        Some(&server),
        &mut results,
    );
    assert_eq!(r, Ok(()));
    assert_eq!(asked(&sys), ["CoCreateInstanceEx(0x56fdf344, false, 4, Some(\"build-7\"), 3)"]);
    assert_eq!(results[0], MULTI_QI { iid: IUnknown::iid(), itf: 0x100, hr: HRESULT(S_OK) });
    assert_eq!(results[1].hr, HRESULT(E_NOINTERFACE));
    assert_eq!(results[1].itf, 0);
    assert_eq!(results[2], MULTI_QI { iid: IMoniker::iid(), itf: 0x102, hr: HRESULT(S_OK) });
}

#[test]
fn create_instance_ex_serves_the_outer_slot_on_success_only() {
    let mut sys = Bridge::new(Sim { out: 0x100, outer: 0xa0, ..Sim::with_object(0x70, 2) });
    let mut outer = IUnknown::from_ptr(0x70);
    let mut results = [MULTI_QI::new(IUnknown::iid())];
    let r = CoCreateInstanceEx(
        &mut sys,
        &taskbar_class(),
        Some(&mut outer),
        CLSCTX(CLSCTX_INPROC_SERVER),
        None,
        &mut results,
    );
    assert_eq!(r, Ok(()));
    assert_eq!(outer.ptr(), 0xa0);
    assert_eq!(sys.native().count(0x70), 1);
    assert_eq!(
        asked(&sys),
        ["CoCreateInstanceEx(0x56fdf344, true, 1, None, 1)", "Release(112)"]
    );

    let mut sys = Bridge::new(Sim { hr: E_FAIL, outer: 0xa0, ..Sim::with_object(0x70, 2) });
    let mut outer = IUnknown::from_ptr(0x70);
    let mut results = [MULTI_QI::new(IUnknown::iid())];
    let r = CoCreateInstanceEx(
        &mut sys,
        &taskbar_class(),
        Some(&mut outer),
        CLSCTX(CLSCTX_INPROC_SERVER),
        None,
        &mut results,
    );
    assert_eq!(r, Err(HRESULT(E_FAIL)));
    assert_eq!(outer.ptr(), 0x70);
    assert_eq!(results[0], MULTI_QI::new(IUnknown::iid()));
    assert_eq!(sys.native().asked.len(), 1);
}

#[test]
fn new_multi_qi_is_empty() {
    let qi = MULTI_QI::new(IMoniker::iid());
    assert_eq!(qi.iid, IMoniker::iid());
    assert_eq!(qi.itf, 0);
    assert_eq!(qi.hr, HRESULT(0));
}

// Subsystem guard

fn is_guard(r: &HrResult<CoUninitializeGuard>) -> Result<HRESULT, HRESULT> {
    match r {
        Ok(guard) => Ok(guard.hr()),
        Err(e) => Err(*e),
    }
}

#[test]
fn initialize_with_plain_success_gives_an_armed_guard() {
    let mut sys = Bridge::new(Sim::default());
    let guard = CoInitializeEx(&mut sys, COINIT(COINIT_MULTITHREADED));
    assert_eq!(is_guard(&guard), Ok(HRESULT(S_OK)));
    assert!(guard.unwrap().is_armed());
    assert_eq!(asked(&sys), ["CoInitializeEx(0)"]);
}

#[test]
fn initialize_already_done_with_same_model_is_success_and_uninitializes_once() {
    let mut sys = Bridge::new(Sim { hr: S_FALSE, ..Sim::default() });
    let guard = CoInitializeEx(&mut sys, COINIT(COINIT_APARTMENTTHREADED));
    assert_eq!(is_guard(&guard), Ok(HRESULT(S_FALSE)));
    let mut guard = guard.unwrap();
    assert!(guard.is_armed());
    assert_eq!(sys.native().uninitialized, 0);
    guard.release(&mut sys);
    assert!(!guard.is_armed());
    assert_eq!(sys.native().uninitialized, 1);
    assert_eq!(asked(&sys), ["CoInitializeEx(2)", "CoUninitialize"]);
    assert_eq!(guard.hr(), HRESULT(S_FALSE));
}

#[test]
fn initialize_already_done_with_other_model_is_success_too() {
    let mut sys = Bridge::new(Sim { hr: RPC_E_CHANGED_MODE, ..Sim::default() });
    let guard = CoInitializeEx(&mut sys, COINIT(COINIT_MULTITHREADED));
    assert_eq!(is_guard(&guard), Ok(HRESULT(RPC_E_CHANGED_MODE)));
    assert_eq!(is_guard(&guard), Ok(HRESULT(-2147417850)));
}

#[test]
fn initialize_that_fails_gives_no_guard() {
    for hr in [E_OUTOFMEMORY, E_FAIL, 2, -1, i32::MIN] {
        let mut sys = Bridge::new(Sim { hr, ..Sim::default() });
        let guard = CoInitializeEx(&mut sys, COINIT(COINIT_APARTMENTTHREADED));
        assert_eq!(is_guard(&guard), Err(HRESULT(hr)));
        assert_eq!(asked(&sys), ["CoInitializeEx(2)"]);
        assert_eq!(sys.native().uninitialized, 0);
    }
}

#[test]
fn initialize_hands_the_flags_on_together() {
    let mut sys = Bridge::new(Sim::default());
    let flags = COINIT(COINIT_APARTMENTTHREADED).or(COINIT(COINIT_DISABLE_OLE1DDE));
    assert_eq!(flags, COINIT(6));
    assert_eq!(flags.raw(), 6);
    let _guard = CoInitializeEx(&mut sys, flags);
    assert_eq!(asked(&sys), ["CoInitializeEx(6)"]);
}

#[test]
fn release_fires_exactly_once_however_often_it_is_asked() {
    let mut sys = Bridge::new(Sim::default());
    let mut guard = CoInitializeEx(&mut sys, COINIT(COINIT_APARTMENTTHREADED)).unwrap();
    guard.release(&mut sys);
    guard.release(&mut sys);
    guard.release(&mut sys);
    assert_eq!(sys.native().initialized, 1);
    assert_eq!(sys.native().uninitialized, 1);
    assert_eq!(asked(&sys), ["CoInitializeEx(2)", "CoUninitialize"]);
}

#[test]
fn leaked_guard_releases_nothing() {
    let mut sys = Bridge::new(Sim::default());
    let mut guard = CoInitializeEx(&mut sys, COINIT(COINIT_APARTMENTTHREADED)).unwrap();
    guard.leak();
    assert!(!guard.is_armed());
    guard.release(&mut sys);
    assert_eq!(sys.native().uninitialized, 0);
    assert_eq!(asked(&sys), ["CoInitializeEx(2)"]);
}

/// Ties the release of a guard to the end of a lexical scope.
struct Scope<'s, G: ScopeGuard> {
    guard: G,
    sys: &'s RefCell<Bridge<Sim>>,
}

impl<'s, G: ScopeGuard> Drop for Scope<'s, G> {
    fn drop(&mut self) {
        self.guard.release(&mut self.sys.borrow_mut());
    }
}

fn work_that_fails_early(sys: &RefCell<Bridge<Sim>>) -> HrResult<u32> {
    let guard = CoInitializeEx(&mut sys.borrow_mut(), COINIT(COINIT_APARTMENTTHREADED))?;
    let _scope = Scope { guard, sys };
    let block = CoTaskMemAlloc(&mut sys.borrow_mut(), 64)?;
    Ok(block as u32)
}

#[test]
fn guard_releases_once_when_the_scope_exits_by_an_early_failure() {
    let sys = RefCell::new(Bridge::new(Sim { block: 0, ..Sim::default() }));
    assert_eq!(work_that_fails_early(&sys), Err(HRESULT(E_OUTOFMEMORY)));
    let sys = sys.into_inner();
    assert_eq!(sys.native().initialized, 1);
    assert_eq!(sys.native().uninitialized, 1);
    assert_eq!(asked(&sys), ["CoInitializeEx(2)", "CoTaskMemAlloc(64)", "CoUninitialize"]);
}

#[test]
fn no_guard_and_no_release_when_the_acquisition_itself_fails() {
    let sys = RefCell::new(Bridge::new(Sim { hr: E_FAIL, ..Sim::default() }));
    assert_eq!(work_that_fails_early(&sys), Err(HRESULT(E_FAIL)));
    let sys = sys.into_inner();
    assert_eq!(sys.native().uninitialized, 0);
    assert_eq!(asked(&sys), ["CoInitializeEx(2)"]);
}

#[test]
fn guard_releases_once_when_the_scope_exits_normally() {
    let sys = RefCell::new(Bridge::new(Sim { block: 0x2000, ..Sim::default() }));
    assert_eq!(work_that_fails_early(&sys), Ok(0x2000));
    assert_eq!(sys.into_inner().native().uninitialized, 1);
}

fn sendable<T: Send>() {}

#[test]
fn guards_and_references_can_move_to_another_thread() {
    sendable::<CoUninitializeGuard>();
    sendable::<CoTaskMemFreeGuard>();
    sendable::<IUnknown>();
    sendable::<ITaskbarList3>();
}

// Lock guard

#[test]
fn lock_gives_a_guard_that_unlocks_the_same_object() {
    let mut sys = Bridge::new(Sim::with_object(0x40, 1));
    let unk = IUnknown::from_ptr(0x40);
    let mut guard = match CoLockObjectExternal(&mut sys, &unk) {
        Ok(guard) => guard,
        Err(e) => panic!("lock failed: {e:?}"),
    };
    assert!(guard.is_armed());
    assert_eq!(sys.native().locks[&0x40], 1);
    guard.release(&mut sys);
    guard.release(&mut sys);
    assert!(!guard.is_armed());
    assert_eq!(sys.native().locks[&0x40], 0);
    assert_eq!(
        asked(&sys),
        ["CoLockObjectExternal(64, true, false)", "CoLockObjectExternal(64, false, true)"]
    );
    assert_eq!(sys.native().count(0x40), 1);
}

#[test]
fn lock_that_fails_gives_no_guard_and_unlocks_nothing() {
    let mut sys = Bridge::new(Sim { hr: E_FAIL, ..Sim::with_object(0x40, 1) });
    let unk = IUnknown::from_ptr(0x40);
    match CoLockObjectExternal(&mut sys, &unk) {
        Ok(_) => panic!("a guard over a failed lock"),
        Err(e) => assert_eq!(e, HRESULT(E_FAIL)),
    }
    assert_eq!(asked(&sys), ["CoLockObjectExternal(64, true, false)"]);
}

#[test]
fn lock_treats_an_informational_status_as_failure() {
    let mut sys = Bridge::new(Sim { hr: S_FALSE, ..Sim::with_object(0x40, 1) });
    let unk = IUnknown::from_ptr(0x40);
    assert!(matches!(CoLockObjectExternal(&mut sys, &unk), Err(HRESULT(1))));
}

#[test]
fn failure_of_the_unlock_is_swallowed() {
    let mut sys = Bridge::new(Sim { unlock_hr: E_FAIL, ..Sim::with_object(0x40, 1) });
    let unk = IUnknown::from_ptr(0x40);
    let mut guard = CoLockObjectExternal(&mut sys, &unk).ok().unwrap();
    guard.release(&mut sys);
    assert!(!guard.is_armed());
    assert_eq!(sys.native().asked.len(), 2);
}

#[test]
fn leaked_lock_guard_unlocks_nothing() {
    let mut sys = Bridge::new(Sim::with_object(0x40, 1));
    let bar = ITaskbarList3::from_ptr(0x40);
    let mut guard = CoLockObjectExternal(&mut sys, &bar).ok().unwrap();
    guard.leak();
    guard.release(&mut sys);
    assert_eq!(sys.native().locks[&0x40], 1);
    assert_eq!(asked(&sys), ["CoLockObjectExternal(64, true, false)"]);
}

// Allocator

#[test]
fn alloc_hands_back_the_block_or_out_of_memory() {
    let mut sys = Bridge::new(Sim { block: 0x2000, ..Sim::default() });
    assert_eq!(CoTaskMemAlloc(&mut sys, 64), Ok(0x2000));
    assert_eq!(asked(&sys), ["CoTaskMemAlloc(64)"]);

    let mut sys = Bridge::new(Sim { block: 0, ..Sim::default() });
    assert_eq!(CoTaskMemAlloc(&mut sys, 64), Err(HRESULT(E_OUTOFMEMORY)));
    assert_eq!(asked(&sys), ["CoTaskMemAlloc(64)"]);
}

#[test]
fn realloc_hands_back_the_block_or_out_of_memory() {
    let mut sys = Bridge::new(Sim { block: 0x3000, ..Sim::default() });
    assert_eq!(CoTaskMemRealloc(&mut sys, 0x2000, 128), Ok(0x3000));
    assert_eq!(asked(&sys), ["CoTaskMemRealloc(8192, 128)"]);

    let mut sys = Bridge::new(Sim { block: 0, ..Sim::default() });
    assert_eq!(CoTaskMemRealloc(&mut sys, 0x2000, usize::MAX), Err(HRESULT(E_OUTOFMEMORY)));
}

#[test]
fn free_hands_the_block_to_the_allocator() {
    let mut sys = Bridge::new(Sim::default());
    CoTaskMemFree(&mut sys, 0x2000);
    CoTaskMemFree(&mut sys, 0);
    assert_eq!(asked(&sys), ["CoTaskMemFree(8192)", "CoTaskMemFree(0)"]);
}

#[test]
fn guarded_allocation_frees_its_block_exactly_once() {
    let mut sys = Bridge::new(Sim { block: 0x2000, ..Sim::default() });
    let mut guard = match CoTaskMemFreeGuard::allocate(&mut sys, 64) {
        Ok(guard) => guard,
        Err(e) => panic!("allocation failed: {e:?}"),
    };
    assert!(guard.is_armed());
    assert_eq!(guard.as_ptr(), 0x2000);
    assert_eq!(guard.len(), 64);
    assert_eq!(guard.as_slice(), ByteView { addr: 0x2000, len: 64 });
    assert_eq!(guard.as_mut_slice(), ByteViewMut { addr: 0x2000, len: 64 });
    guard.release(&mut sys);
    guard.release(&mut sys);
    assert!(!guard.is_armed());
    assert_eq!(guard.as_ptr(), 0);
    assert_eq!(guard.len(), 0);
    assert_eq!(sys.native().freed, [0x2000]);
    assert_eq!(asked(&sys), ["CoTaskMemAlloc(64)", "CoTaskMemFree(8192)"]);
}

#[test]
fn out_of_memory_gives_the_error_and_no_guard() {
    let mut sys = Bridge::new(Sim { block: 0, ..Sim::default() });
    match CoTaskMemFreeGuard::allocate(&mut sys, 64) {
        Ok(_) => panic!("a guard over a failed allocation"),
        Err(e) => assert_eq!(e, HRESULT(E_OUTOFMEMORY)),
    }
    assert_eq!(asked(&sys), ["CoTaskMemAlloc(64)"]);
    assert!(sys.native().freed.is_empty());
}

#[test]
fn leaked_block_is_handed_over_and_not_freed() {
    let mut sys = Bridge::new(Sim { block: 0x2000, ..Sim::default() });
    let mut guard = CoTaskMemFreeGuard::allocate(&mut sys, 64).ok().unwrap();
    assert_eq!(guard.leak(), (0x2000, 64));
    assert!(!guard.is_armed());
    assert_eq!(guard.leak(), (0, 0));
    guard.release(&mut sys);
    assert!(sys.native().freed.is_empty());
    assert_eq!(asked(&sys), ["CoTaskMemAlloc(64)"]);
}

// Identifiers

#[test]
fn class_identifier_lookups_hand_back_what_the_native_layer_found() {
    let found = taskbar_class();
    let mut sys = Bridge::new(Sim { clsid: Some(found), ..Sim::default() });
    assert_eq!(CLSIDFromProgID(&mut sys, "Shell.Taskbar"), Ok(found));
    assert_eq!(CLSIDFromProgIDEx(&mut sys, "Shell.Taskbar.1"), Ok(found));
    assert_eq!(CLSIDFromString(&mut sys, "{56FDF344-FD6D-11d0-958A-006097C9A090}"), Ok(found));
    assert_eq!(
        asked(&sys),
        [
            "CLSIDFromProgID(Shell.Taskbar)",
            "CLSIDFromProgIDEx(Shell.Taskbar.1)",
            "CLSIDFromString({56FDF344-FD6D-11d0-958A-006097C9A090})"
        ]
    );
}

#[test]
fn class_identifier_lookups_that_fail_are_the_status() {
    let mut sys = Bridge::new(Sim { hr: CO_E_CLASSSTRING, clsid: Some(taskbar_class()), ..Sim::default() });
    assert_eq!(CLSIDFromProgID(&mut sys, ""), Err(HRESULT(CO_E_CLASSSTRING)));
    assert_eq!(CLSIDFromProgIDEx(&mut sys, "x"), Err(HRESULT(CO_E_CLASSSTRING)));
    assert_eq!(CLSIDFromString(&mut sys, "{}"), Err(HRESULT(-2147221005)));
    assert_eq!(sys.native().asked.len(), 3);
}

#[test]
fn new_guid_is_what_the_native_layer_made() {
    let mut sys = Bridge::new(Sim::default());
    assert_eq!(
        CoCreateGuid(&mut sys),
        Ok(GUID { data1: 0xdead_beef, data2: 0x1234, data3: 0x5678, data4: 0x0102_0304_0506_0708 })
    );
    let mut sys = Bridge::new(Sim { hr: E_FAIL, ..Sim::default() });
    assert_eq!(CoCreateGuid(&mut sys), Err(HRESULT(E_FAIL)));
}

#[test]
fn text_of_a_class_identifier_is_read_and_then_freed() {
    let mut sys = Bridge::new(Sim {
        out: 0x5000,
        text: String::from("{56FDF344-FD6D-11D0-958A-006097C9A090}"),
        ..Sim::default()
    });
    assert_eq!(
        StringFromCLSID(&mut sys, &taskbar_class()),
        Ok(String::from("{56FDF344-FD6D-11D0-958A-006097C9A090}"))
    );
    assert_eq!(
        asked(&sys),
        ["StringFromCLSID(0x56fdf344)", "ReadWideString(20480)", "CoTaskMemFree(20480)"]
    );
    assert_eq!(sys.native().freed, [0x5000]);
}

#[test]
fn text_of_a_class_identifier_that_fails_reads_and_frees_nothing() {
    let mut sys = Bridge::new(Sim { hr: E_OUTOFMEMORY, out: 0x5000, ..Sim::default() });
    assert_eq!(StringFromCLSID(&mut sys, &taskbar_class()), Err(HRESULT(E_OUTOFMEMORY)));
    assert_eq!(asked(&sys), ["StringFromCLSID(0x56fdf344)"]);
    assert!(sys.native().freed.is_empty());
}

// Monikers

#[test]
fn monikers_wrap_what_the_native_layer_created() {
    let mut sys = Bridge::new(Sim { out: 0x600, ..Sim::default() });
    let unk = IUnknown::from_ptr(0x40);
    let bar = ITaskbarList3::from_ptr(0x90);
    assert_eq!(ptr_of(&CreateClassMoniker(&mut sys, &taskbar_class())), Ok(0x600));
    assert_eq!(ptr_of(&CreateFileMoniker(&mut sys, "C:\\Temp\\a.txt")), Ok(0x600));
    assert_eq!(ptr_of(&CreateItemMoniker(&mut sys, "!", "sheet1")), Ok(0x600));
    assert_eq!(ptr_of(&CreateObjrefMoniker(&mut sys, &unk)), Ok(0x600));
    assert_eq!(ptr_of(&CreatePointerMoniker(&mut sys, &bar)), Ok(0x600));
    assert_eq!(
        asked(&sys),
        [
            "CreateClassMoniker(0x56fdf344)",
            "CreateFileMoniker(C:\\Temp\\a.txt)",
            "CreateItemMoniker(!, sheet1)",
            "CreateObjrefMoniker(64)",
            "CreatePointerMoniker(144)"
        ]
    );
}

#[test]
fn monikers_that_fail_are_the_status() {
    let mut sys = Bridge::new(Sim { hr: E_OUTOFMEMORY, out: 0x600, ..Sim::default() });
    let unk = IUnknown::from_ptr(0x40);
    assert_eq!(ptr_of(&CreateClassMoniker(&mut sys, &taskbar_class())), Err(HRESULT(E_OUTOFMEMORY)));
    assert_eq!(ptr_of(&CreateFileMoniker(&mut sys, "")), Err(HRESULT(E_OUTOFMEMORY)));
    assert_eq!(ptr_of(&CreateItemMoniker(&mut sys, "", "")), Err(HRESULT(E_OUTOFMEMORY)));
    assert_eq!(ptr_of(&CreateObjrefMoniker(&mut sys, &unk)), Err(HRESULT(E_OUTOFMEMORY)));
    assert_eq!(ptr_of(&CreatePointerMoniker(&mut sys, &unk)), Err(HRESULT(E_OUTOFMEMORY)));
    assert_eq!(sys.native().asked.len(), 5);
}

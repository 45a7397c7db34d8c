//! The native call bridge.
//!
//! The primitives of the operating system are grouped, by the library that
//! provides them, into traits without contracts: nothing is promised of what
//! a primitive returns. A [`Bridge`] owns an implementation of them, makes
//! every call, and records each call with its outcome in a ghost history.
use crate::co::{CLSID, IID};
use crate::guid::GUID;
use crate::ole::structs::{COSERVERINFO, MULTI_QI};
use vstd::prelude::*;

verus! {

/// One invocation of a native primitive: its arguments and what it returned.
pub ghost enum NativeCall {
    CloseHandle { handle: usize, ok: bool },
    GetLastError { code: u32 },
    MapViewOfFile {
        mapping: usize,
        access: u32,
        offset_high: u32,
        offset_low: u32,
        bytes: i64,
        address: usize,
    },
    UnmapViewOfFile { address: usize, ok: bool },
    ReadWideString { address: usize, text: Seq<char> },
    DeleteObject { object: usize, ok: bool },
    SendMessage { hwnd: usize, msg: u32, wparam: usize, lparam: isize, ret: isize },
    QueryInterface { object: usize, iid: IID, hr: i32, out: usize },
    AddRef { object: usize, count: u32 },
    Release { object: usize, count: u32 },
    RegisterTab { object: usize, hwnd_tab: usize, hwnd_mdi: usize, hr: i32 },
    SetProgressState { object: usize, hwnd: usize, flags: u32, hr: i32 },
    SetProgressValue { object: usize, hwnd: usize, completed: u64, total: u64, hr: i32 },
    SetTabActive { object: usize, hwnd_tab: usize, hwnd_mdi: usize, reserved: u32, hr: i32 },
    SetTabOrder { object: usize, hwnd_tab: usize, hwnd_insert_before: usize, hr: i32 },
    CLSIDFromProgID { prog_id: Seq<char>, hr: i32, clsid: CLSID },
    CLSIDFromProgIDEx { prog_id: Seq<char>, hr: i32, clsid: CLSID },
    CLSIDFromString { text: Seq<char>, hr: i32, clsid: CLSID },
    CoCreateGuid { hr: i32, guid: GUID },
    CoCreateInstance {
        clsid: CLSID,
        with_outer: bool,
        cls_context: u32,
        iid: IID,
        hr: i32,
        object: usize,
        outer: usize,
    },
    CoCreateInstanceEx {
        clsid: CLSID,
        with_outer: bool,
        cls_context: u32,
        server: Option<Seq<char>>,
        asked: Seq<MULTI_QI>,
        hr: i32,
        outer: usize,
        filled: Seq<MULTI_QI>,
    },
    CoInitializeEx { coinit: u32, hr: i32 },
    CoUninitialize,
    CoLockObjectExternal { object: usize, lock: bool, last_unlock_releases: bool, hr: i32 },
    CoTaskMemAlloc { cb: usize, block: usize },
    CoTaskMemFree { block: usize },
    CoTaskMemRealloc { block: usize, cb: usize, moved: usize },
    CreateClassMoniker { clsid: CLSID, hr: i32, moniker: usize },
    CreateFileMoniker { path: Seq<char>, hr: i32, moniker: usize },
    CreateItemMoniker { delim: Seq<char>, item: Seq<char>, hr: i32, moniker: usize },
    CreateObjrefMoniker { unk: usize, hr: i32, moniker: usize },
    CreatePointerMoniker { unk: usize, hr: i32, moniker: usize },
    StringFromCLSID { clsid: CLSID, hr: i32, address: usize },
}

/// `after` is `before` and exactly one call more.
pub open spec fn one_call(before: Seq<NativeCall>, after: Seq<NativeCall>) -> bool {
    after.len() > 0 && after == before.push(after.last())
}

/// Primitives of the kernel library, and the reading of memory that a
/// primitive handed out.
pub trait Kernel32 {
    fn CloseHandle(&mut self, handle: usize) -> bool;

    fn GetLastError(&mut self) -> u32;

    fn MapViewOfFile(
        &mut self,
        mapping: usize,
        access: u32,
        offset_high: u32,
        offset_low: u32,
        bytes: i64,
    ) -> usize;

    fn UnmapViewOfFile(&mut self, address: usize) -> bool;

    /// The null-terminated wide string at `address`, as text.
    fn ReadWideString(&mut self, address: usize) -> String;
}

/// Primitives of the graphics library.
pub trait Gdi32 {
    fn DeleteObject(&mut self, object: usize) -> bool;
}

/// Primitives of the windowing library.
pub trait User32 {
    fn SendMessage(&mut self, hwnd: usize, msg: u32, wparam: usize, lparam: isize) -> isize;
}

/// Calls dispatched through the virtual table of a component object. The
/// first argument of each is the object.
pub trait ComVT {
    /// Returns the status and the pointer left in the output slot.
    fn QueryInterface(&mut self, object: usize, iid: &IID) -> (i32, usize);

    fn AddRef(&mut self, object: usize) -> u32;

    fn Release(&mut self, object: usize) -> u32;

    fn RegisterTab(&mut self, object: usize, hwnd_tab: usize, hwnd_mdi: usize) -> i32;

    fn SetProgressState(&mut self, object: usize, hwnd: usize, flags: u32) -> i32;

    fn SetProgressValue(&mut self, object: usize, hwnd: usize, completed: u64, total: u64) -> i32;

    fn SetTabActive(
        &mut self,
        object: usize,
        hwnd_tab: usize,
        hwnd_mdi: usize,
        reserved: u32,
    ) -> i32;

    fn SetTabOrder(&mut self, object: usize, hwnd_tab: usize, hwnd_insert_before: usize) -> i32;
}

/// Primitives of the component-object library. Where the native primitive
/// fills output slots, the status comes first and the slots follow it.
pub trait Ole32 {
    fn CLSIDFromProgID(&mut self, prog_id: &str) -> (i32, CLSID);

    fn CLSIDFromProgIDEx(&mut self, prog_id: &str) -> (i32, CLSID);

    fn CLSIDFromString(&mut self, text: &str) -> (i32, CLSID);

    fn CoCreateGuid(&mut self) -> (i32, GUID);

    /// Returns the status, the new object and, where `with_outer` asks for
    /// one, the controlling object.
    fn CoCreateInstance(
        &mut self,
        clsid: &CLSID,
        with_outer: bool,
        cls_context: u32,
        iid: &IID,
    ) -> (i32, usize, usize);

    /// Fills `results` in place; returns the status and the controlling
    /// object.
    fn CoCreateInstanceEx(
        &mut self,
        clsid: &CLSID,
        with_outer: bool,
        cls_context: u32,
        server: Option<&COSERVERINFO>,
        results: &mut [MULTI_QI],
    ) -> (i32, usize);

    fn CoInitializeEx(&mut self, coinit: u32) -> i32;

    fn CoUninitialize(&mut self);

    fn CoLockObjectExternal(
        &mut self,
        object: usize,
        lock: bool,
        last_unlock_releases: bool,
    ) -> i32;

    fn CoTaskMemAlloc(&mut self, cb: usize) -> usize;

    fn CoTaskMemFree(&mut self, block: usize);

    fn CoTaskMemRealloc(&mut self, block: usize, cb: usize) -> usize;

    fn CreateClassMoniker(&mut self, clsid: &CLSID) -> (i32, usize);

    fn CreateFileMoniker(&mut self, path: &str) -> (i32, usize);

    fn CreateItemMoniker(&mut self, delim: &str, item: &str) -> (i32, usize);

    fn CreateObjrefMoniker(&mut self, unk: usize) -> (i32, usize);

    fn CreatePointerMoniker(&mut self, unk: usize) -> (i32, usize);

    /// Returns the status and the address of the text that was allocated.
    fn StringFromCLSID(&mut self, clsid: &CLSID) -> (i32, usize);
}

/// Owns the native layer and keeps the history of the calls made through it.
pub struct Bridge<N> {
    native: N,
    calls: Ghost<Seq<NativeCall>>,
}

impl<N> View for Bridge<N> {
    type V = Seq<NativeCall>;

    /// Every primitive invoked so far, oldest first.
    closed spec fn view(&self) -> Seq<NativeCall> {
        self.calls@
    }
}

impl<N> Bridge<N> {
    /// The native layer that the calls go to.
    pub closed spec fn layer(&self) -> N {
        self.native
    }

    /// A bridge over `native` through which nothing was called yet.
    pub fn new(native: N) -> (sys: Self)
        ensures
            sys@ == Seq::<NativeCall>::empty(),
            sys.layer() == native,
    {
        Bridge { native, calls: Ghost(Seq::empty()) }
    }

    /// The native layer, to look at.
    pub fn native(&self) -> (n: &N)
        ensures
            *n == self.layer(),
    {
        &self.native
    }

    /// Gives the native layer back.
    pub fn into_native(self) -> (n: N)
        ensures
            n == self.layer(),
    {
        self.native
    }
}

/// The kernel primitives. Each method makes one call and writes it, with what
/// came back, at the end of the history.
impl<N: Kernel32> Bridge<N> {
    pub(crate) fn close_handle(&mut self, handle: usize) -> (ok: bool)
        ensures
            final(self)@ == old(self)@.push(NativeCall::CloseHandle { handle, ok }),
    {
        let ok = self.native.CloseHandle(handle);
        proof {
            self.calls@ = self.calls@.push(NativeCall::CloseHandle { handle, ok });
        }
        ok
    }

    pub(crate) fn get_last_error(&mut self) -> (code: u32)
        ensures
            final(self)@ == old(self)@.push(NativeCall::GetLastError { code }),
    {
        let code = self.native.GetLastError();
        proof {
            self.calls@ = self.calls@.push(NativeCall::GetLastError { code });
        }
        code
    }

    pub(crate) fn map_view_of_file(
        &mut self,
        mapping: usize,
        access: u32,
        offset_high: u32,
        offset_low: u32,
        bytes: i64,
    ) -> (address: usize)
        ensures
            final(self)@ == old(self)@.push(
                NativeCall::MapViewOfFile {
                    mapping,
                    access,
                    offset_high,
                    offset_low,
                    bytes,
                    address,
                },
            ),
    {
        let address = self.native.MapViewOfFile(mapping, access, offset_high, offset_low, bytes);
        proof {
            self.calls@ = self.calls@.push(
                NativeCall::MapViewOfFile {
                    mapping,
                    access,
                    offset_high,
                    offset_low,
                    bytes,
                    address,
                },
            );
        }
        address
    }

    pub(crate) fn unmap_view_of_file(&mut self, address: usize) -> (ok: bool)
        ensures
            final(self)@ == old(self)@.push(NativeCall::UnmapViewOfFile { address, ok }),
    {
        let ok = self.native.UnmapViewOfFile(address);
        proof {
            self.calls@ = self.calls@.push(NativeCall::UnmapViewOfFile { address, ok });
        }
        ok
    }

    pub(crate) fn read_wide_string(&mut self, address: usize) -> (text: String)
        ensures
            final(self)@ == old(self)@.push(NativeCall::ReadWideString { address, text: text@ }),
    {
        let text = self.native.ReadWideString(address);
        proof {
            self.calls@ = self.calls@.push(NativeCall::ReadWideString { address, text: text@ });
        }
        text
    }
}

/// The graphics primitives, called and recorded in the same way.
impl<N: Gdi32> Bridge<N> {
    pub(crate) fn delete_object(&mut self, object: usize) -> (ok: bool)
        ensures
            final(self)@ == old(self)@.push(NativeCall::DeleteObject { object, ok }),
    {
        let ok = self.native.DeleteObject(object);
        proof {
            self.calls@ = self.calls@.push(NativeCall::DeleteObject { object, ok });
        }
        ok
    }
}

/// The windowing primitives, called and recorded in the same way.
impl<N: User32> Bridge<N> {
    pub(crate) fn send_message(
        &mut self,
        hwnd: usize,
        msg: u32,
        wparam: usize,
        lparam: isize,
    ) -> (ret: isize)
        ensures
            final(self)@ == old(self)@.push(
                NativeCall::SendMessage { hwnd, msg, wparam, lparam, ret },
            ),
    {
        let ret = self.native.SendMessage(hwnd, msg, wparam, lparam);
        proof {
            self.calls@ = self.calls@.push(
                NativeCall::SendMessage { hwnd, msg, wparam, lparam, ret },
            );
        }
        ret
    }
}

/// The virtual-table calls, made and recorded in the same way.
impl<N: ComVT> Bridge<N> {
    pub(crate) fn query_interface(&mut self, object: usize, iid: &IID) -> (r: (i32, usize))
        ensures
            final(self)@ == old(self)@.push(
                NativeCall::QueryInterface { object, iid: *iid, hr: r.0, out: r.1 },
            ),
    {
        let r = self.native.QueryInterface(object, iid);
        proof {
            self.calls@ = self.calls@.push(
                NativeCall::QueryInterface { object, iid: *iid, hr: r.0, out: r.1 },
            );
        }
        r
    }

    pub(crate) fn add_ref(&mut self, object: usize) -> (count: u32)
        ensures
            final(self)@ == old(self)@.push(
                NativeCall::AddRef { object, count },
            ),
    {
        let count = self.native.AddRef(object);
        proof {
            self.calls@ = self.calls@.push(
                NativeCall::AddRef { object, count },
            );
        }
        count
    }

    pub(crate) fn release(&mut self, object: usize) -> (count: u32)
        ensures
            final(self)@ == old(self)@.push(
                NativeCall::Release { object, count },
            ),
    {
        let count = self.native.Release(object);
        proof {
            self.calls@ = self.calls@.push(
                NativeCall::Release { object, count },
            );
        }
        count
    }

    pub(crate) fn register_tab(
        &mut self,
        object: usize,
        hwnd_tab: usize,
        hwnd_mdi: usize,
    ) -> (hr: i32)
        ensures
            final(self)@ == old(self)@.push(
                NativeCall::RegisterTab { object, hwnd_tab, hwnd_mdi, hr },
            ),
    {
        let hr = self.native.RegisterTab(object, hwnd_tab, hwnd_mdi);
        proof {
            self.calls@ = self.calls@.push(
                NativeCall::RegisterTab { object, hwnd_tab, hwnd_mdi, hr },
            );
        }
        hr
    }

    pub(crate) fn set_progress_state(&mut self, object: usize, hwnd: usize, flags: u32) -> (hr: i32)
        ensures
            final(self)@ == old(self)@.push(
                NativeCall::SetProgressState { object, hwnd, flags, hr },
            ),
    {
        let hr = self.native.SetProgressState(object, hwnd, flags);
        proof {
            self.calls@ = self.calls@.push(
                NativeCall::SetProgressState { object, hwnd, flags, hr },
            );
        }
        hr
    }

    pub(crate) fn set_progress_value(
        &mut self,
        object: usize,
        hwnd: usize,
        completed: u64,
        total: u64,
    ) -> (hr: i32)
        ensures
            final(self)@ == old(self)@.push(
                NativeCall::SetProgressValue { object, hwnd, completed, total, hr },
            ),
    {
        let hr = self.native.SetProgressValue(object, hwnd, completed, total);
        proof {
            self.calls@ = self.calls@.push(
                NativeCall::SetProgressValue { object, hwnd, completed, total, hr },
            );
        }
        hr
    }

    pub(crate) fn set_tab_active(
        &mut self,
        object: usize,
        hwnd_tab: usize,
        hwnd_mdi: usize,
        reserved: u32,
    ) -> (hr: i32)
        ensures
            final(self)@ == old(self)@.push(
                NativeCall::SetTabActive { object, hwnd_tab, hwnd_mdi, reserved, hr },
            ),
    {
        let hr = self.native.SetTabActive(object, hwnd_tab, hwnd_mdi, reserved);
        proof {
            self.calls@ = self.calls@.push(
                NativeCall::SetTabActive { object, hwnd_tab, hwnd_mdi, reserved, hr },
            );
        }
        hr
    }

    pub(crate) fn set_tab_order(
        &mut self,
        object: usize,
        hwnd_tab: usize,
        hwnd_insert_before: usize,
    ) -> (hr: i32)
        ensures
            final(self)@ == old(self)@.push(
                NativeCall::SetTabOrder { object, hwnd_tab, hwnd_insert_before, hr },
            ),
    {
        let hr = self.native.SetTabOrder(object, hwnd_tab, hwnd_insert_before);
        proof {
            self.calls@ = self.calls@.push(
                NativeCall::SetTabOrder { object, hwnd_tab, hwnd_insert_before, hr },
            );
        }
        hr
    }
}

/// The machine name in `server`, if one is given.
pub open spec fn server_name(server: Option<&COSERVERINFO>) -> Option<Seq<char>> {
    match server {
        Some(info) => Some(info.name@),
        None => None,
    }
}

/// The component-object primitives, called and recorded in the same way.
impl<N: Ole32> Bridge<N> {
    pub(crate) fn clsid_from_prog_id(&mut self, prog_id: &str) -> (r: (i32, CLSID))
        ensures
            final(self)@ == old(self)@.push(
                NativeCall::CLSIDFromProgID { prog_id: prog_id@, hr: r.0, clsid: r.1 },
            ),
    {
        let r = self.native.CLSIDFromProgID(prog_id);
        proof {
            self.calls@ = self.calls@.push(
                NativeCall::CLSIDFromProgID { prog_id: prog_id@, hr: r.0, clsid: r.1 },
            );
        }
        r
    }

    pub(crate) fn clsid_from_prog_id_ex(&mut self, prog_id: &str) -> (r: (i32, CLSID))
        ensures
            final(self)@ == old(self)@.push(
                NativeCall::CLSIDFromProgIDEx { prog_id: prog_id@, hr: r.0, clsid: r.1 },
            ),
    {
        let r = self.native.CLSIDFromProgIDEx(prog_id);
        proof {
            self.calls@ = self.calls@.push(
                NativeCall::CLSIDFromProgIDEx { prog_id: prog_id@, hr: r.0, clsid: r.1 },
            );
        }
        r
    }

    pub(crate) fn clsid_from_string(&mut self, text: &str) -> (r: (i32, CLSID))
        ensures
            final(self)@ == old(self)@.push(
                NativeCall::CLSIDFromString { text: text@, hr: r.0, clsid: r.1 },
            ),
    {
        let r = self.native.CLSIDFromString(text);
        proof {
            self.calls@ = self.calls@.push(
                NativeCall::CLSIDFromString { text: text@, hr: r.0, clsid: r.1 },
            );
        }
        r
    }

    pub(crate) fn co_create_guid(&mut self) -> (r: (i32, GUID))
        ensures
            final(self)@ == old(self)@.push(
                NativeCall::CoCreateGuid { hr: r.0, guid: r.1 },
            ),
    {
        let r = self.native.CoCreateGuid();
        proof {
            self.calls@ = self.calls@.push(
                NativeCall::CoCreateGuid { hr: r.0, guid: r.1 },
            );
        }
        r
    }

    pub(crate) fn co_create_instance(
        &mut self,
        clsid: &CLSID,
        with_outer: bool,
        cls_context: u32,
        iid: &IID,
    ) -> (r: (i32, usize, usize))
        ensures
            final(self)@ == old(self)@.push(
                NativeCall::CoCreateInstance {
                    clsid: *clsid,
                    with_outer,
                    cls_context,
                    iid: *iid,
                    hr: r.0,
                    object: r.1,
                    outer: r.2,
                },
            ),
    {
        let r = self.native.CoCreateInstance(clsid, with_outer, cls_context, iid);
        proof {
            self.calls@ = self.calls@.push(
                NativeCall::CoCreateInstance {
                    clsid: *clsid,
                    with_outer,
                    cls_context,
                    iid: *iid,
                    hr: r.0,
                    object: r.1,
                    outer: r.2,
                },
            );
        }
        r
    }

    pub(crate) fn co_create_instance_ex(
        &mut self,
        clsid: &CLSID,
        with_outer: bool,
        cls_context: u32,
        server: Option<&COSERVERINFO>,
        results: &mut [MULTI_QI],
    ) -> (r: (i32, usize))
        ensures
            final(self)@ == old(self)@.push(
                NativeCall::CoCreateInstanceEx {
                    clsid: *clsid,
                    with_outer,
                    cls_context,
                    server: server_name(server),
                    asked: old(results)@,
                    hr: r.0,
                    outer: r.1,
                    filled: final(results)@,
                },
            ),
    {
        let ghost asked = results@;
        let r = self.native.CoCreateInstanceEx(clsid, with_outer, cls_context, server, results);
        proof {
            self.calls@ = self.calls@.push(
                NativeCall::CoCreateInstanceEx {
                    clsid: *clsid,
                    with_outer,
                    cls_context,
                    server: server_name(server),
                    asked,
                    hr: r.0,
                    outer: r.1,
                    filled: results@,
                },
            );
        }
        r
    }

    pub(crate) fn co_initialize_ex(&mut self, coinit: u32) -> (hr: i32)
        ensures
            final(self)@ == old(self)@.push(
                NativeCall::CoInitializeEx { coinit, hr },
            ),
    {
        let hr = self.native.CoInitializeEx(coinit);
        proof {
            self.calls@ = self.calls@.push(
                NativeCall::CoInitializeEx { coinit, hr },
            );
        }
        hr
    }

    pub(crate) fn co_uninitialize(&mut self)
        ensures
            final(self)@ == old(self)@.push(
                NativeCall::CoUninitialize,
            ),
    {
        self.native.CoUninitialize();
        proof {
            self.calls@ = self.calls@.push(
                NativeCall::CoUninitialize,
            );
        }
    }

    pub(crate) fn co_lock_object_external(
        &mut self,
        object: usize,
        lock: bool,
        last_unlock_releases: bool,
    ) -> (hr: i32)
        ensures
            final(self)@ == old(self)@.push(
                NativeCall::CoLockObjectExternal { object, lock, last_unlock_releases, hr },
            ),
    {
        let hr = self.native.CoLockObjectExternal(object, lock, last_unlock_releases);
        proof {
            self.calls@ = self.calls@.push(
                NativeCall::CoLockObjectExternal { object, lock, last_unlock_releases, hr },
            );
        }
        hr
    }

    pub(crate) fn co_task_mem_alloc(&mut self, cb: usize) -> (block: usize)
        ensures
            final(self)@ == old(self)@.push(
                NativeCall::CoTaskMemAlloc { cb, block },
            ),
    {
        let block = self.native.CoTaskMemAlloc(cb);
        proof {
            self.calls@ = self.calls@.push(
                NativeCall::CoTaskMemAlloc { cb, block },
            );
        }
        block
    }

    pub(crate) fn co_task_mem_free(&mut self, block: usize)
        ensures
            final(self)@ == old(self)@.push(
                NativeCall::CoTaskMemFree { block },
            ),
    {
        self.native.CoTaskMemFree(block);
        proof {
            self.calls@ = self.calls@.push(
                NativeCall::CoTaskMemFree { block },
            );
        }
    }

    pub(crate) fn co_task_mem_realloc(&mut self, block: usize, cb: usize) -> (moved: usize)
        ensures
            final(self)@ == old(self)@.push(
                NativeCall::CoTaskMemRealloc { block, cb, moved },
            ),
    {
        let moved = self.native.CoTaskMemRealloc(block, cb);
        proof {
            self.calls@ = self.calls@.push(
                NativeCall::CoTaskMemRealloc { block, cb, moved },
            );
        }
        moved
    }

    pub(crate) fn create_class_moniker(&mut self, clsid: &CLSID) -> (r: (i32, usize))
        ensures
            final(self)@ == old(self)@.push(
                NativeCall::CreateClassMoniker { clsid: *clsid, hr: r.0, moniker: r.1 },
            ),
    {
        let r = self.native.CreateClassMoniker(clsid);
        proof {
            self.calls@ = self.calls@.push(
                NativeCall::CreateClassMoniker { clsid: *clsid, hr: r.0, moniker: r.1 },
            );
        }
        r
    }

    pub(crate) fn create_file_moniker(&mut self, path: &str) -> (r: (i32, usize))
        ensures
            final(self)@ == old(self)@.push(
                NativeCall::CreateFileMoniker { path: path@, hr: r.0, moniker: r.1 },
            ),
    {
        let r = self.native.CreateFileMoniker(path);
        proof {
            self.calls@ = self.calls@.push(
                NativeCall::CreateFileMoniker { path: path@, hr: r.0, moniker: r.1 },
            );
        }
        r
    }

    pub(crate) fn create_item_moniker(&mut self, delim: &str, item: &str) -> (r: (i32, usize))
        ensures
            final(self)@ == old(self)@.push(
                NativeCall::CreateItemMoniker { delim: delim@, item: item@, hr: r.0, moniker: r.1 },
            ),
    {
        let r = self.native.CreateItemMoniker(delim, item);
        proof {
            self.calls@ = self.calls@.push(
                NativeCall::CreateItemMoniker { delim: delim@, item: item@, hr: r.0, moniker: r.1 },
            );
        }
        r
    }

    pub(crate) fn create_objref_moniker(&mut self, unk: usize) -> (r: (i32, usize))
        ensures
            final(self)@ == old(self)@.push(
                NativeCall::CreateObjrefMoniker { unk, hr: r.0, moniker: r.1 },
            ),
    {
        let r = self.native.CreateObjrefMoniker(unk);
        proof {
            self.calls@ = self.calls@.push(
                NativeCall::CreateObjrefMoniker { unk, hr: r.0, moniker: r.1 },
            );
        }
        r
    }

    pub(crate) fn create_pointer_moniker(&mut self, unk: usize) -> (r: (i32, usize))
        ensures
            final(self)@ == old(self)@.push(
                NativeCall::CreatePointerMoniker { unk, hr: r.0, moniker: r.1 },
            ),
    {
        let r = self.native.CreatePointerMoniker(unk);
        proof {
            self.calls@ = self.calls@.push(
                NativeCall::CreatePointerMoniker { unk, hr: r.0, moniker: r.1 },
            );
        }
        r
    }

    pub(crate) fn string_from_clsid(&mut self, clsid: &CLSID) -> (r: (i32, usize))
        ensures
            final(self)@ == old(self)@.push(
                NativeCall::StringFromCLSID { clsid: *clsid, hr: r.0, address: r.1 },
            ),
    {
        let r = self.native.StringFromCLSID(clsid);
        proof {
            self.calls@ = self.calls@.push(
                NativeCall::StringFromCLSID { clsid: *clsid, hr: r.0, address: r.1 },
            );
        }
        r
    }
}

} // verus!

//! The ITaskbarList3 interface.
use crate::co::IID;
use crate::guid::GUID;
use crate::ole::iunknown::ole_IUnknown;
use crate::shell::itaskbarlist2::ITaskbarList2;
use crate::aliases::WinResult;
use crate::co::TBPF;
use crate::handles::hwnd::HWND;
use crate::native::{one_call, Bridge, ComVT, NativeCall};
use crate::privs::{hr_to_winresult, status_as_winresult};
use vstd::prelude::*;

verus! {

/// The taskbar, with tabs, progress and thumbnails. A value owns one count of
/// the object; give it up with [`ole_IUnknown::Release`].
pub struct ITaskbarList3 {
    /// The base interface.
    pub ITaskbarList2: ITaskbarList2,
}

impl ole_IUnknown for ITaskbarList3 {
    open spec fn addr(&self) -> usize {
        self.ITaskbarList2.addr()
    }

    open spec fn interface() -> IID {
        IID(GUID { data1: 0xea1a_fb91, data2: 0x9e28, data3: 0x4b86, data4: 0x90e9_9e9f_8a5e_efaf })
    }

    proof fn same_addr_same_ref(a: &Self, b: &Self) {
        ITaskbarList2::same_addr_same_ref(&a.ITaskbarList2, &b.ITaskbarList2);
    }

    fn iid() -> (iid: IID) {
        IID(GUID::new(0xea1a_fb91, 0x9e28, 0x4b86, 0x90e9_9e9f_8a5e_efaf))
    }

    fn from_ptr(ppv: usize) -> (obj: Self) {
        ITaskbarList3 { ITaskbarList2: ITaskbarList2::from_ptr(ppv) }
    }

    fn ptr(&self) -> (ppv: usize) {
        self.ITaskbarList2.ptr()
    }
}

impl ITaskbarList3 {
    /// Tells the taskbar that a tab belongs to a window of the application.
    pub fn RegisterTab<N: ComVT>(
        &self,
        sys: &mut Bridge<N>,
        hwndTab: HWND,
        hwndMDI: HWND,
    ) -> (r: WinResult<()>)
        ensures
            one_call(old(sys)@, final(sys)@),
            final(sys)@.last() matches NativeCall::RegisterTab { object, hwnd_tab, hwnd_mdi, hr }
                && object == self.addr() && hwnd_tab == hwndTab.ptr && hwnd_mdi == hwndMDI.ptr
                && r == status_as_winresult(hr),
    {
        hr_to_winresult(sys.register_tab(self.ptr(), hwndTab.ptr, hwndMDI.ptr))
    }

    /// Sets the kind of progress shown on the taskbar button of a window.
    pub fn SetProgressState<N: ComVT>(
        &self,
        sys: &mut Bridge<N>,
        hwnd: HWND,
        tbpfFlags: TBPF,
    ) -> (r: WinResult<()>)
        ensures
            one_call(old(sys)@, final(sys)@),
            final(sys)@.last() matches NativeCall::SetProgressState { object, hwnd: h, flags, hr }
                && object == self.addr() && h == hwnd.ptr && flags == tbpfFlags.0
                && r == status_as_winresult(hr),
    {
        hr_to_winresult(sys.set_progress_state(self.ptr(), hwnd.ptr, tbpfFlags.0))
    }

    /// Sets how much of the work is done, out of the total, on the taskbar
    /// button of a window.
    pub fn SetProgressValue<N: ComVT>(
        &self,
        sys: &mut Bridge<N>,
        hwnd: HWND,
        ullCompleted: u64,
        ullTotal: u64,
    ) -> (r: WinResult<()>)
        ensures
            one_call(old(sys)@, final(sys)@),
            final(sys)@.last() matches NativeCall::SetProgressValue {
                object,
                hwnd: h,
                completed,
                total,
                hr,
            } && object == self.addr() && h == hwnd.ptr && completed == ullCompleted && total
                == ullTotal && r == status_as_winresult(hr),
    {
        hr_to_winresult(sys.set_progress_value(self.ptr(), hwnd.ptr, ullCompleted, ullTotal))
    }

    /// Tells the taskbar that a tab became the active one.
    pub fn SetTabActive<N: ComVT>(
        &self,
        sys: &mut Bridge<N>,
        hwndTab: HWND,
        hwndMDI: HWND,
    ) -> (r: WinResult<()>)
        ensures
            one_call(old(sys)@, final(sys)@),
            final(sys)@.last() matches NativeCall::SetTabActive {
                object,
                hwnd_tab,
                hwnd_mdi,
                reserved,
                hr,
            } && object == self.addr() && hwnd_tab == hwndTab.ptr && hwnd_mdi == hwndMDI.ptr
                && reserved == 0 && r == status_as_winresult(hr),
    {
        hr_to_winresult(sys.set_tab_active(self.ptr(), hwndTab.ptr, hwndMDI.ptr, 0))
    }

    /// Puts a tab before another one in the order of the taskbar.
    pub fn SetTabOrder<N: ComVT>(
        &self,
        sys: &mut Bridge<N>,
        hwndTab: HWND,
        hwndInsertBefore: HWND,
    ) -> (r: WinResult<()>)
        ensures
            one_call(old(sys)@, final(sys)@),
            final(sys)@.last() matches NativeCall::SetTabOrder {
                object,
                hwnd_tab,
                hwnd_insert_before,
                hr,
            } && object == self.addr() && hwnd_tab == hwndTab.ptr && hwnd_insert_before
                == hwndInsertBefore.ptr && r == status_as_winresult(hr),
    {
        hr_to_winresult(sys.set_tab_order(self.ptr(), hwndTab.ptr, hwndInsertBefore.ptr))
    }
}

} // verus!

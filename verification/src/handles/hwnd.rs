//! Windows.
use crate::handles::traits::Handle;
use crate::msg::MsgSend;
use crate::native::{one_call, Bridge, NativeCall, User32};
use vstd::prelude::*;

verus! {

/// Handle to a window.
#[derive(Clone, Copy, PartialEq, Eq, Debug, Structural)]
pub struct HWND {
    pub ptr: usize,
}

impl Handle for HWND {
    open spec fn addr(self) -> usize {
        self.ptr
    }

    proof fn same_addr_same_handle(a: Self, b: Self) {
    }

    fn null() -> (h: Self) {
        HWND { ptr: 0 }
    }

    fn from_ptr(p: usize) -> (h: Self) {
        HWND { ptr: p }
    }

    fn as_ptr(self) -> (p: usize) {
        self.ptr
    }
}

/// What sending `msg` to the window `hwnd` left in the history and handed
/// back: the send primitive is called once with the generic form of the
/// message, and the result is what its raw answer means for that message.
pub open spec fn sent<M: MsgSend>(
    before: Seq<NativeCall>,
    after: Seq<NativeCall>,
    hwnd: usize,
    msg: M,
    r: M::RetType,
) -> bool {
    &&& one_call(before, after)
    &&& after.last() matches NativeCall::SendMessage { hwnd: h, msg: id, wparam, lparam, ret }
    &&& h == hwnd
    &&& id == msg.generic().msg_id.0
    &&& wparam == msg.generic().wparam
    &&& lparam == msg.generic().lparam
    &&& r == msg.answer(ret)
}

impl HWND {
    /// Sends a message to the window and waits for the answer.
    pub fn SendMessage<M: MsgSend, N: User32>(self, sys: &mut Bridge<N>, msg: M) -> (r: M::RetType)
        ensures
            sent(old(sys)@, final(sys)@, self.ptr, msg, r),
    {
        let mut msg = msg;
        let wm = msg.as_generic_wm();
        let ret = sys.send_message(self.ptr, wm.msg_id.0, wm.wparam, wm.lparam);
        msg.convert_ret(ret)
    }
}

} // verus!

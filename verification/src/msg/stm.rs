//! Messages of the static control.
use crate::aliases::WinResult;
use crate::co::{ERROR, ERROR_BAD_ARGUMENTS, STM_GETICON, STM_SETICON, WM};
use crate::handles::hicon::HICON;
use crate::msg::{MsgSend, WndMsg};
use crate::privs::{token_of, word_bits, zero_as_err};
use vstd::prelude::*;

verus! {

/// What the raw answer to an icon message means: zero is a failure, any
/// other word is the handle of an icon.
pub open spec fn icon_answer(v: isize) -> WinResult<HICON> {
    if v == 0 {
        Err(ERROR(ERROR_BAD_ARGUMENTS))
    } else {
        Ok(HICON { ptr: token_of(v) })
    }
}

/// Turns the raw answer to an icon message into the icon or the failure.
pub fn icon_from_ret(v: isize) -> (r: WinResult<HICON>)
    ensures
        r == icon_answer(v),
{
    match zero_as_err(v) {
        Ok(p) => Ok(HICON { ptr: word_bits(p) }),
        Err(e) => Err(e),
    }
}

/// Asks a static control for the icon it shows. The message has no
/// parameters.
pub struct GetIcon {}

impl MsgSend for GetIcon {
    type RetType = WinResult<HICON>;

    open spec fn generic(&self) -> WndMsg {
        WndMsg { msg_id: WM(STM_GETICON), wparam: 0, lparam: 0 }
    }

    open spec fn answer(&self, v: isize) -> WinResult<HICON> {
        icon_answer(v)
    }

    fn convert_ret(&self, v: isize) -> (r: WinResult<HICON>) {
        icon_from_ret(v)
    }

    fn as_generic_wm(&mut self) -> (wm: WndMsg) {
        WndMsg { msg_id: WM(STM_GETICON), wparam: 0, lparam: 0 }
    }
}

/// Tells a static control which icon to show. The answer is the icon that
/// it showed before.
pub struct SetIcon {
    pub icon: HICON,
}

impl MsgSend for SetIcon {
    type RetType = WinResult<HICON>;

    open spec fn generic(&self) -> WndMsg {
        WndMsg { msg_id: WM(STM_SETICON), wparam: self.icon.ptr, lparam: 0 }
    }

    open spec fn answer(&self, v: isize) -> WinResult<HICON> {
        icon_answer(v)
    }

    fn convert_ret(&self, v: isize) -> (r: WinResult<HICON>) {
        icon_from_ret(v)
    }

    fn as_generic_wm(&mut self) -> (wm: WndMsg) {
        WndMsg { msg_id: WM(STM_SETICON), wparam: self.icon.ptr, lparam: 0 }
    }
}

} // verus!

//! Window messages.
pub mod stm;

use crate::co::WM;
use vstd::prelude::*;

verus! {

/// A message in the form in which the send primitive takes any message.
#[derive(Clone, Copy, PartialEq, Eq, Debug, Structural)]
pub struct WndMsg {
    pub msg_id: WM,
    pub wparam: usize,
    pub lparam: isize,
}

/// A typed message: it knows its generic form, and what the raw answer to
/// it means.
pub trait MsgSend: Sized {
    /// What the answer to the message is for the caller.
    type RetType;

    /// The generic form of the message.
    spec fn generic(&self) -> WndMsg;

    /// What the raw answer `v` means.
    spec fn answer(&self, v: isize) -> Self::RetType;

    /// Turns the raw answer into the typed one.
    fn convert_ret(&self, v: isize) -> (r: Self::RetType)
        ensures
            r == self.answer(v),
    ;

    /// Puts the message into its generic form.
    fn as_generic_wm(&mut self) -> (wm: WndMsg)
        ensures
            wm == old(self).generic(),
            *final(self) == *old(self),
    ;
}

} // verus!

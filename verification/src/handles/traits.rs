//! What every handle can do, and the two ways in which a handle is given
//! back to the system.
use crate::aliases::WinResult;
use crate::co::{ERROR, ERROR_SUCCESS};
use crate::native::{Bridge, Gdi32, Kernel32, NativeCall};
use crate::privs::{bool_to_winresult, flag_as_winresult};
use vstd::prelude::*;

verus! {

/// What closing `handle` left in the history and handed back: the close
/// primitive is called once on it; if it answered `true` that is all and the
/// result is success, and if it answered `false` the last-error code is
/// sampled right after and is the error.
pub open spec fn closed(
    before: Seq<NativeCall>,
    after: Seq<NativeCall>,
    handle: usize,
    r: WinResult<()>,
) -> bool {
    let k = before.len() as int;
    &&& after.len() > k
    &&& after[k] matches NativeCall::CloseHandle { handle: h, ok }
    &&& h == handle
    &&& flag_as_winresult(ok, before.push(after[k]), after, r)
}

/// What the last-error code means after the delete primitive answered zero:
/// the success code says that the object was deleted after all, any other
/// code is the error.
pub open spec fn zero_delete_as_winresult(code: u32) -> WinResult<()> {
    if code == ERROR_SUCCESS {
        Ok(())
    } else {
        Err(ERROR(code))
    }
}

/// What deleting `object` left in the history and handed back: the delete
/// primitive is called once on it; if it answered nonzero that is all and the
/// result is success, and if it answered zero the last-error code is sampled
/// right after and decides, as [`zero_delete_as_winresult`] says.
pub open spec fn deleted(
    before: Seq<NativeCall>,
    after: Seq<NativeCall>,
    object: usize,
    r: WinResult<()>,
) -> bool {
    let k = before.len() as int;
    &&& after.len() > k
    &&& after[k] matches NativeCall::DeleteObject { object: o, ok }
    &&& o == object
    &&& if ok {
        r == Ok::<(), ERROR>(()) && after == before.push(after[k])
    } else {
        &&& after.len() == k + 2
        &&& after == before.push(after[k]).push(after[k + 1])
        &&& after[k + 1] matches NativeCall::GetLastError { code }
        &&& r == zero_delete_as_winresult(code)
    }
}

/// Decides what a zero answer of the delete primitive meant, from the
/// last-error code that went with it.
pub fn zero_delete_to_winresult(code: u32) -> (r: WinResult<()>)
    ensures
        r == zero_delete_as_winresult(code),
{
    if code == ERROR_SUCCESS {
        Ok(())
    } else {
        Err(ERROR(code))
    }
}

/// Any handle: an address-sized token with a kind that exists at compile
/// time only. A handle can be copied freely; no copy owns the resource.
pub trait Handle: Copy + Send + Sized {
    /// The token.
    spec fn addr(self) -> usize;

    /// A handle is its token and nothing else, so two handles of one kind
    /// are equal exactly if their tokens are; in particular every kind has
    /// one null handle.
    proof fn same_addr_same_handle(a: Self, b: Self)
        requires
            a.addr() == b.addr(),
        ensures
            a == b,
    ;

    /// The null handle, which names nothing.
    fn null() -> (h: Self)
        ensures
            h.addr() == 0,
    ;

    /// Takes a token for a handle of this kind. The token is not looked at.
    fn from_ptr(p: usize) -> (h: Self)
        ensures
            h.addr() == p,
    ;

    /// The token.
    fn as_ptr(self) -> (p: usize)
        ensures
            p == self.addr(),
    ;

    /// Whether this is the null handle.
    fn is_null(self) -> (b: bool)
        ensures
            b == (self.addr() == 0),
    {
        self.as_ptr() == 0
    }

    /// The handle, or nothing if it is the null handle.
    fn as_opt(self) -> (o: Option<Self>)
        ensures
            o == (if self.addr() == 0 {
                None
            } else {
                Some(self)
            }),
    {
        if self.is_null() {
            None
        } else {
            Some(self)
        }
    }
}

/// A handle that is given back with the close primitive.
pub trait HandleClose: Handle {
    /// Closes the handle. Closing the same token twice is the caller's
    /// mistake, and is handed to the system as it is.
    fn CloseHandle<N: Kernel32>(self, sys: &mut Bridge<N>) -> (r: WinResult<()>)
        ensures
            closed(old(sys)@, final(sys)@, self.addr(), r),
    {
        let ok = sys.close_handle(self.as_ptr());
        bool_to_winresult(sys, ok)
    }
}

/// A handle to a graphics object, which is given back with the delete
/// primitive.
pub trait HandleGdi: Handle {
    /// Deletes the object. The answer of the primitive alone is not trusted:
    /// a zero answer is a failure only if the last-error code says so.
    fn DeleteObject<N: Gdi32 + Kernel32>(self, sys: &mut Bridge<N>) -> (r: WinResult<()>)
        ensures
            deleted(old(sys)@, final(sys)@, self.addr(), r),
    {
        if sys.delete_object(self.as_ptr()) {
            Ok(())
        } else {
            zero_delete_to_winresult(sys.get_last_error())
        }
    }
}

} // verus!

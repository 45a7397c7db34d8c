//! File mappings and the views mapped from them.
use crate::aliases::WinResult;
use crate::co::{ERROR, FILE_MAP};
use crate::handles::traits::{Handle, HandleClose};
use crate::mem::{ByteView, ByteViewMut};
use crate::native::{Bridge, Kernel32, NativeCall};
use crate::privs::{bool_to_winresult, flag_as_winresult, HIDWORD, LODWORD};
use vstd::prelude::*;

verus! {

/// Handle to a file mapping.
#[derive(Clone, Copy, PartialEq, Eq, Debug, Structural)]
pub struct HFILEMAP {
    pub ptr: usize,
}

impl Handle for HFILEMAP {
    open spec fn addr(self) -> usize {
        self.ptr
    }

    proof fn same_addr_same_handle(a: Self, b: Self) {
    }

    fn null() -> (h: Self) {
        HFILEMAP { ptr: 0 }
    }

    fn from_ptr(p: usize) -> (h: Self) {
        HFILEMAP { ptr: p }
    }

    fn as_ptr(self) -> (p: usize) {
        self.ptr
    }
}

impl HandleClose for HFILEMAP {}

/// The number of bytes handed to the map primitive: what the caller asked
/// for, or zero, which maps to the end of the file.
pub open spec fn bytes_to_map(number_of_bytes_to_map: Option<i64>) -> i64 {
    match number_of_bytes_to_map {
        Some(n) => n,
        None => 0,
    }
}

/// What mapping a view left in the history and handed back. The map
/// primitive is called once, with the offset split into its high and low
/// halves. If it answered with an address that is all and the view at that
/// address is the result; if it answered null the last-error code is sampled
/// right after and is the error.
pub open spec fn view_mapped(
    before: Seq<NativeCall>,
    after: Seq<NativeCall>,
    mapping: usize,
    desired_access: FILE_MAP,
    offset: u64,
    number_of_bytes_to_map: Option<i64>,
    r: WinResult<HFILEMAPVIEW>,
) -> bool {
    let k = before.len() as int;
    &&& after.len() > k
    &&& after[k] matches NativeCall::MapViewOfFile {
        mapping: m,
        access,
        offset_high,
        offset_low,
        bytes,
        address,
    }
    &&& m == mapping
    &&& access == desired_access.0
    &&& offset_high == offset / 0x1_0000_0000
    &&& offset_low == offset % 0x1_0000_0000
    &&& bytes == bytes_to_map(number_of_bytes_to_map)
    &&& match r {
        Ok(view) => address != 0 && view.ptr == address && after == before.push(after[k]),
        Err(e) => address == 0 && after == before.push(after[k]).push(
            NativeCall::GetLastError { code: e.0 },
        ),
    }
}

impl HFILEMAP {
    /// Maps a view of the file mapping into memory, starting `offset` bytes
    /// into the file. The view must be given back with
    /// [`HFILEMAPVIEW::UnmapViewOfFile`].
    pub fn MapViewOfFile<N: Kernel32>(
        self,
        sys: &mut Bridge<N>,
        desired_access: FILE_MAP,
        offset: u64,
        number_of_bytes_to_map: Option<i64>,
    ) -> (r: WinResult<HFILEMAPVIEW>)
        ensures
            view_mapped(
                old(sys)@,
                final(sys)@,
                self.ptr,
                desired_access,
                offset,
                number_of_bytes_to_map,
                r,
            ),
    {
        let bytes = match number_of_bytes_to_map {
            Some(n) => n,
            None => 0,
        };
        let address = sys.map_view_of_file(
            self.ptr,
            desired_access.0,
            HIDWORD(offset),
            LODWORD(offset),
            bytes,
        );
        if address != 0 {
            Ok(HFILEMAPVIEW { ptr: address })
        } else {
            Err(ERROR(sys.get_last_error()))
        }
    }
}

/// Address of a mapped view.
#[derive(Clone, Copy, PartialEq, Eq, Debug, Structural)]
pub struct HFILEMAPVIEW {
    pub ptr: usize,
}

impl Handle for HFILEMAPVIEW {
    open spec fn addr(self) -> usize {
        self.ptr
    }

    proof fn same_addr_same_handle(a: Self, b: Self) {
    }

    fn null() -> (h: Self) {
        HFILEMAPVIEW { ptr: 0 }
    }

    fn from_ptr(p: usize) -> (h: Self) {
        HFILEMAPVIEW { ptr: p }
    }

    fn as_ptr(self) -> (p: usize) {
        self.ptr
    }
}

/// What unmapping the view at `address` left in the history and handed back:
/// the unmap primitive is called once on it; if it answered `true` that is
/// all and the result is success, and if it answered `false` the last-error
/// code is sampled right after and is the error.
pub open spec fn unmapped(
    before: Seq<NativeCall>,
    after: Seq<NativeCall>,
    address: usize,
    r: WinResult<()>,
) -> bool {
    let k = before.len() as int;
    &&& after.len() > k
    &&& after[k] matches NativeCall::UnmapViewOfFile { address: a, ok }
    &&& a == address
    &&& flag_as_winresult(ok, before.push(after[k]), after, r)
}

impl HFILEMAPVIEW {
    /// Unmaps the view.
    pub fn UnmapViewOfFile<N: Kernel32>(self, sys: &mut Bridge<N>) -> (r: WinResult<()>)
        ensures
            unmapped(old(sys)@, final(sys)@, self.ptr, r),
    {
        let ok = sys.unmap_view_of_file(self.ptr);
        bool_to_winresult(sys, ok)
    }

    /// The first `len` bytes of the view, to be read and written. Ask for
    /// this only where the view was mapped with write access.
    ///
    /// The length is taken as given, whatever it is: nothing here knows how
    /// far the mapping extends, and the caller must. If the file shrinks
    /// after the view was mapped, the bytes described still reach beyond
    /// the file; describe them anew after every change of size.
    pub fn as_mut_slice(self, len: usize) -> (bytes: ByteViewMut)
        ensures
            bytes == (ByteViewMut { addr: self.ptr, len }),
    {
        ByteViewMut { addr: self.ptr, len }
    }

    /// The first `len` bytes of the view, to be read.
    ///
    /// The length is taken as given, whatever it is: nothing here knows how
    /// far the mapping extends, and the caller must. If the file shrinks
    /// after the view was mapped, the bytes described still reach beyond
    /// the file; describe them anew after every change of size.
    pub fn as_slice(self, len: usize) -> (bytes: ByteView)
        ensures
            bytes == (ByteView { addr: self.ptr, len }),
    {
        ByteView { addr: self.ptr, len }
    }
}

} // verus!

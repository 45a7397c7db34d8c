//! How the raw outcome of a native primitive becomes a typed result.
use crate::aliases::{HrResult, WinResult};
use crate::co::{ERROR, ERROR_BAD_ARGUMENTS, E_OUTOFMEMORY, HRESULT, S_OK};
use crate::native::{Bridge, Kernel32, NativeCall};
use vstd::prelude::*;

verus! {

/// The 32 bits of a signed status code, read as an unsigned number.
pub open spec fn dword_of(v: i32) -> u32 {
    if v >= 0 {
        v as u32
    } else {
        (v + 0x1_0000_0000) as u32
    }
}

/// The bits of a signed word, read as an address-sized token.
pub open spec fn token_of(v: isize) -> usize {
    if v >= 0 {
        v as usize
    } else {
        (v + usize::MAX + 1) as usize
    }
}

/// What a status code means to a caller who is told of failures by error
/// code: success for the one success status, else the same 32 bits as an
/// error.
pub open spec fn status_as_winresult(hr: i32) -> WinResult<()> {
    if hr == S_OK {
        Ok(())
    } else {
        Err(ERROR(dword_of(hr)))
    }
}

/// What a status code means to a caller who is told of failures by status:
/// success for the one success status, else the status itself.
pub open spec fn status_as_hrresult(hr: i32) -> HrResult<()> {
    if hr == S_OK {
        Ok(())
    } else {
        Err(HRESULT(hr))
    }
}

/// What an allocator's answer means: a null block is out-of-memory, any other
/// block is handed on.
pub open spec fn block_as_hrresult(block: usize) -> HrResult<usize> {
    if block == 0 {
        Err(HRESULT(E_OUTOFMEMORY))
    } else {
        Ok(block)
    }
}

/// What a boolean primitive's answer means, given the history before and
/// after the last-error code was asked for: on `true` nothing more is called,
/// on `false` the last-error code is sampled once and becomes the error.
pub open spec fn flag_as_winresult(
    ok: bool,
    before: Seq<NativeCall>,
    after: Seq<NativeCall>,
    r: WinResult<()>,
) -> bool {
    match r {
        Ok(()) => ok && after == before,
        Err(e) => !ok && after == before.push(NativeCall::GetLastError { code: e.0 }),
    }
}

/// A status code loses nothing when it is carried as an error code: two
/// statuses with the same bits are the same status, and only the success
/// status has the bits of the success code.
pub proof fn status_bits_are_faithful(a: i32, b: i32)
    ensures
        dword_of(a) == dword_of(b) ==> a == b,
        dword_of(a) == 0 <==> a == S_OK,
        status_as_winresult(a) is Ok <==> a == S_OK,
        status_as_hrresult(a) is Ok <==> a == S_OK,
{
}

/// The two halves that the map primitive is given say where the view starts:
/// together they are the offset, and each fits its 32 bits.
pub proof fn offset_halves_are_faithful(offset: u64)
    ensures
        (offset / 0x1_0000_0000) * 0x1_0000_0000 + offset % 0x1_0000_0000 == offset,
        offset / 0x1_0000_0000 <= u32::MAX,
        offset % 0x1_0000_0000 <= u32::MAX,
{
}

/// Reinterprets a signed status code as an unsigned number of the same bits.
pub fn status_bits(hr: i32) -> (v: u32)
    ensures
        v == dword_of(hr),
{
    if hr >= 0 {
        hr as u32
    } else {
        (hr as i64 + 0x1_0000_0000) as u32
    }
}

/// Reinterprets a signed word as an address-sized token of the same bits.
pub fn word_bits(v: isize) -> (p: usize)
    ensures
        p == token_of(v),
{
    if v >= 0 {
        v as usize
    } else {
        usize::MAX - ((-(v + 1)) as usize)
    }
}

/// Maps a status code to a result whose error is an error code.
pub fn hr_to_winresult(hr: i32) -> (r: WinResult<()>)
    ensures
        r == status_as_winresult(hr),
{
    if hr == S_OK {
        Ok(())
    } else {
        Err(ERROR(status_bits(hr)))
    }
}

/// Maps a status code to a result whose error is the status.
pub fn ok_to_hrresult(hr: i32) -> (r: HrResult<()>)
    ensures
        r == status_as_hrresult(hr),
{
    if hr == S_OK {
        Ok(())
    } else {
        Err(HRESULT(hr))
    }
}

/// Maps a null allocation to out-of-memory.
pub fn null_to_hrresult(block: usize) -> (r: HrResult<usize>)
    ensures
        r == block_as_hrresult(block),
{
    if block == 0 {
        Err(HRESULT(E_OUTOFMEMORY))
    } else {
        Ok(block)
    }
}

/// Maps the answer of a boolean primitive to a result, asking for the
/// last-error code if and only if the answer was `false`.
pub fn bool_to_winresult<N: Kernel32>(sys: &mut Bridge<N>, ok: bool) -> (r: WinResult<()>)
    ensures
        flag_as_winresult(ok, old(sys)@, final(sys)@, r),
{
    if ok {
        Ok(())
    } else {
        Err(ERROR(sys.get_last_error()))
    }
}

/// Takes a zero answer to a message as a failure.
pub fn zero_as_err(v: isize) -> (r: WinResult<isize>)
    ensures
        r == (if v == 0 {
            Err::<isize, ERROR>(ERROR(ERROR_BAD_ARGUMENTS))
        } else {
            Ok::<isize, ERROR>(v)
        }),
{
    if v == 0 {
        Err(ERROR(ERROR_BAD_ARGUMENTS))
    } else {
        Ok(v)
    }
}

/// The high 32 bits of a 64-bit number.
pub fn HIDWORD(v: u64) -> (hi: u32)
    ensures
        hi == v / 0x1_0000_0000,
{
    let hi: u64 = v >> 32;
    assert(hi == v / 0x1_0000_0000 && hi <= 0xffff_ffff) by (bit_vector)
        requires
            hi == v >> 32,
    ;
    hi as u32
}

/// The low 32 bits of a 64-bit number.
pub fn LODWORD(v: u64) -> (lo: u32)
    ensures
        lo == v % 0x1_0000_0000,
{
    let lo: u64 = v & 0xffff_ffff;
    assert(lo == v % 0x1_0000_0000 && lo <= 0xffff_ffff) by (bit_vector)
        requires
            lo == v & 0xffff_ffff,
    ;
    lo as u32
}

} // verus!

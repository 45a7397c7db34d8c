//! Native constants and the types that carry them.
use crate::guid::GUID;
use vstd::prelude::*;

verus! {

/// A last-error code, as sampled from the thread after a failing call.
#[derive(Clone, Copy, PartialEq, Eq, Debug, Structural)]
pub struct ERROR(pub u32);

pub const ERROR_SUCCESS: u32 = 0;

pub const ERROR_FILE_NOT_FOUND: u32 = 2;

pub const ERROR_ACCESS_DENIED: u32 = 5;

pub const ERROR_INVALID_HANDLE: u32 = 6;

pub const ERROR_NOT_ENOUGH_MEMORY: u32 = 8;

pub const ERROR_INVALID_PARAMETER: u32 = 87;

pub const ERROR_BAD_ARGUMENTS: u32 = 160;

impl ERROR {
    /// The code as a number.
    pub fn raw(self) -> (v: u32)
        ensures
            v == self.0,
    {
        self.0
    }
}

/// A signed 32-bit native status code.
#[derive(Clone, Copy, PartialEq, Eq, Debug, Structural)]
pub struct HRESULT(pub i32);

pub const S_OK: i32 = 0;

pub const S_FALSE: i32 = 1;

/// 0x8000_4002
pub const E_NOINTERFACE: i32 = -2147467262;

/// 0x8000_4003
pub const E_POINTER: i32 = -2147467261;

/// 0x8000_4005
pub const E_FAIL: i32 = -2147467259;

/// 0x8001_0106
pub const RPC_E_CHANGED_MODE: i32 = -2147417850;

/// 0x8004_0154
pub const REGDB_E_CLASSNOTREG: i32 = -2147221164;

/// 0x8004_01F3
pub const CO_E_CLASSSTRING: i32 = -2147221005;

/// 0x8007_000E
pub const E_OUTOFMEMORY: i32 = -2147024882;

/// 0x8007_0057
pub const E_INVALIDARG: i32 = -2147024809;

impl HRESULT {
    /// Wraps a status code as the native layer returned it.
    pub fn from_raw(hr: i32) -> (h: HRESULT)
        ensures
            h == HRESULT(hr),
    {
        HRESULT(hr)
    }

    /// The code as a number.
    pub fn raw(self) -> (v: i32)
        ensures
            v == self.0,
    {
        self.0
    }
}

/// Access rights asked of a mapped view.
#[derive(Clone, Copy, PartialEq, Eq, Debug, Structural)]
pub struct FILE_MAP(pub u32);

pub const FILE_MAP_COPY: u32 = 0x0001;

pub const FILE_MAP_WRITE: u32 = 0x0002;

pub const FILE_MAP_READ: u32 = 0x0004;

pub const FILE_MAP_EXECUTE: u32 = 0x0020;

/// Concurrency model asked of the component-object subsystem.
#[derive(Clone, Copy, PartialEq, Eq, Debug, Structural)]
pub struct COINIT(pub u32);

pub const COINIT_MULTITHREADED: u32 = 0x0;

pub const COINIT_APARTMENTTHREADED: u32 = 0x2;

pub const COINIT_DISABLE_OLE1DDE: u32 = 0x4;

pub const COINIT_SPEED_OVER_MEMORY: u32 = 0x8;

impl COINIT {
    /// The flags as a number.
    pub fn raw(self) -> (v: u32)
        ensures
            v == self.0,
    {
        self.0
    }

    /// Both sets of flags together.
    pub fn or(self, other: COINIT) -> (both: COINIT)
        ensures
            both.0 == self.0 | other.0,
    {
        COINIT(self.0 | other.0)
    }
}

/// Execution context asked of a component object.
#[derive(Clone, Copy, PartialEq, Eq, Debug, Structural)]
pub struct CLSCTX(pub u32);

pub const CLSCTX_INPROC_SERVER: u32 = 0x1;

pub const CLSCTX_INPROC_HANDLER: u32 = 0x2;

pub const CLSCTX_LOCAL_SERVER: u32 = 0x4;

pub const CLSCTX_REMOTE_SERVER: u32 = 0x10;

impl CLSCTX {
    /// The flags as a number.
    pub fn raw(self) -> (v: u32)
        ensures
            v == self.0,
    {
        self.0
    }
}

/// Progress state shown on a taskbar button.
#[derive(Clone, Copy, PartialEq, Eq, Debug, Structural)]
pub struct TBPF(pub u32);

pub const TBPF_NOPROGRESS: u32 = 0x0;

pub const TBPF_INDETERMINATE: u32 = 0x1;

pub const TBPF_NORMAL: u32 = 0x2;

pub const TBPF_ERROR: u32 = 0x4;

pub const TBPF_PAUSED: u32 = 0x8;

/// Identifier of a window message.
#[derive(Clone, Copy, PartialEq, Eq, Debug, Structural)]
pub struct WM(pub u32);

pub const STM_SETICON: u32 = 0x0170;

pub const STM_GETICON: u32 = 0x0171;

/// Identifier of a component-object class.
#[derive(Clone, Copy, PartialEq, Eq, Debug, Structural)]
pub struct CLSID(pub GUID);

/// Identifier of a component-object interface.
#[derive(Clone, Copy, PartialEq, Eq, Debug, Structural)]
pub struct IID(pub GUID);

} // verus!

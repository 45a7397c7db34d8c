//! A safety layer over the handle- and component-object-based native
//! interface of the operating system.
//!
//! Every native primitive is reached through a [`native::Bridge`], which
//! keeps, as ghost state, the history of the primitives that were invoked and
//! of what each returned. The contracts of this crate are stated over that
//! history: which primitive is called, with which arguments, how often, and
//! how its outcome becomes the typed result handed to the caller.
#![allow(non_camel_case_types)]
#![allow(non_snake_case)]
#![allow(non_upper_case_globals)]

pub mod aliases;
pub mod co;
pub mod guid;
pub mod handles;
pub mod mem;
pub mod msg;
pub mod native;
pub mod ole;
pub mod privs;
pub mod shell;

pub use aliases::{HrResult, WinResult};
pub use guid::GUID;
pub use handles::{Handle, HandleClose, HandleGdi, HBITMAP, HFILEMAP, HFILEMAPVIEW, HICON, HWND};
pub use native::Bridge;
pub use ole::funcs::{
    CLSIDFromProgID, CLSIDFromProgIDEx, CLSIDFromString, CoCreateGuid, CoCreateInstance,
    CoCreateInstanceEx, CoInitializeEx, CoLockObjectExternal, CoTaskMemAlloc, CoTaskMemFree,
    CoTaskMemRealloc, CreateClassMoniker, CreateFileMoniker, CreateItemMoniker, CreateObjrefMoniker,
    CreatePointerMoniker, StringFromCLSID,
};
pub use ole::iunknown::QueryInterface;
pub use ole::{ole_IUnknown, IMoniker, IUnknown, COSERVERINFO, MULTI_QI};

//! Component objects: references, creation, guards.

pub mod funcs;
pub mod guard;
pub mod imoniker;
pub mod iunknown;
pub mod structs;

pub use imoniker::IMoniker;
pub use iunknown::{ole_IUnknown, IUnknown};
pub use structs::{COSERVERINFO, MULTI_QI};

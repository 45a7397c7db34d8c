//! Handles: typed, copyable tokens that name a native resource without
//! owning it.
pub mod hbitmap;
pub mod hfilemap;
pub mod hicon;
pub mod hwnd;
pub mod traits;

pub use hbitmap::HBITMAP;
pub use hfilemap::{HFILEMAP, HFILEMAPVIEW};
pub use hicon::HICON;
pub use hwnd::HWND;
pub use traits::{Handle, HandleClose, HandleGdi};

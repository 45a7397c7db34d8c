//! Component objects of the shell.
pub mod itaskbarlist;
pub mod itaskbarlist2;
pub mod itaskbarlist3;

pub use itaskbarlist::ITaskbarList;
pub use itaskbarlist2::ITaskbarList2;
pub use itaskbarlist3::ITaskbarList3;

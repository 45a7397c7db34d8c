//! Result aliases.
use crate::co::{ERROR, HRESULT};
use vstd::prelude::*;

verus! {

/// Result of an operation whose failure is a last-error code.
pub type WinResult<T> = Result<T, ERROR>;

/// Result of an operation whose failure is a native status code.
pub type HrResult<T> = Result<T, HRESULT>;

} // verus!

//! Status codes of the resize entry points, and a holder for the last one.

use vstd::prelude::*;

verus! {

/// The call completed and the destination holds the resampled image.
pub const RESIZE_OK: i32 = 0;

/// A buffer address was null.
pub const RESIZE_ERR_NULL_PTR: i32 = 1;

/// A dimension was zero or above the limits.
pub const RESIZE_ERR_INVALID_SIZE: i32 = 2;

/// `width * height * 4` does not fit in 64 bits.
pub const RESIZE_ERR_OVERFLOW: i32 = 3;

/// A buffer does not have the length its dimensions call for.
pub const RESIZE_ERR_MEMORY: i32 = 4;

/// A buffer address is not a multiple of four.
pub const RESIZE_ERR_ALIGNMENT: i32 = 5;

/// The source and destination byte ranges overlap.
pub const RESIZE_ERR_OVERLAP: i32 = 6;

/// Holds the status of the most recent call, for a host that asks for it
/// separately from the call's own return value.
pub struct ErrorState {
    pub code: i32,
}

impl ErrorState {
    pub fn new() -> (r: ErrorState)
        ensures
            r.code == RESIZE_OK,
    {
        ErrorState { code: RESIZE_OK }
    }

    /// Records `code` as the status of the most recent call.
    pub fn set_last_error(&mut self, code: i32)
        ensures
            final(self).code == code,
    {
        self.code = code;
    }

    pub fn last_error(&self) -> (r: i32)
        ensures
            r == self.code,
    {
        self.code
    }
}

} // verus!

//! Protocol-level errors that an ATT server reports to its peer.

use crate::handle::Handle;
use vstd::prelude::*;

verus! {

/// The code of an ATT error response.
#[derive(Debug, Clone, Copy, PartialEq, Eq, Structural)]
pub enum ErrorCode {
    /// The handle given in a request was not valid on this server.
    InvalidHandle,
}

/// An error that is answered with an ATT Error Response: the error code, and
/// the handle that caused it.
#[derive(Debug, Clone, Copy, PartialEq, Eq, Structural)]
pub struct AttError {
    pub code: ErrorCode,
    pub handle: Handle,
}

impl AttError {
    /// Creates an error with the code `code` that reports the handle `handle`.
    pub fn new(code: ErrorCode, handle: Handle) -> (r: Self)
        ensures
            r == (AttError { code, handle }),
    {
        AttError { code, handle }
    }

    /// Returns the error code.
    pub fn error_code(&self) -> (r: ErrorCode)
        ensures
            r == self.code,
    {
        self.code
    }

    /// Returns the handle in error.
    pub fn handle(&self) -> (r: Handle)
        ensures
            r == self.handle,
    {
        self.handle
    }
}

} // verus!

//! The error vocabulary shared by the library's modules.
use vstd::prelude::*;

verus! {

/// How a failure is classified for its caller.
#[derive(Debug, Clone, Copy, PartialEq, Eq, Structural)]
pub enum ErrorCategory {
    InvalidArgument,
    NotFound,
    Conflict,
    Unavailable,
    Internal,
    Authorization,
}

} // verus!

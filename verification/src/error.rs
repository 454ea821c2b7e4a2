//! Errors reported by the lifecycle controller and the per-core state.

use vstd::prelude::*;

verus! {

/// The error of an architecture backend: `axerrno::AxError`. The library
/// carries such an error from the backend to the caller and never looks
/// inside.
#[verifier::external_type_specification]
#[verifier::external_body]
pub struct ExAxError(axerrno::AxError);

/// Why an operation on a virtual CPU or on the per-core state failed.
#[derive(Clone, Copy, Debug, PartialEq, Eq)]
pub enum VCpuError {
    /// The operation was attempted from a state that does not allow it.
    BadState,
    /// The architecture backend failed; its error is handed on unchanged.
    Backend(axerrno::AxError),
}

/// The result of an operation of this crate.
pub type VCpuResult<T = ()> = Result<T, VCpuError>;

/// What the caller sees when a backend call returned `result`: success is
/// kept, and a backend error is wrapped without being altered.
pub open spec fn lift_backend<T>(result: Result<T, axerrno::AxError>) -> Result<T, VCpuError> {
    match result {
        Ok(value) => Ok(value),
        Err(e) => Err(VCpuError::Backend(e)),
    }
}

impl VCpuError {
    /// Whether this is the bad-state error.
    pub fn is_bad_state(&self) -> (b: bool)
        ensures
            b == (*self == VCpuError::BadState),
    {
        match self {
            VCpuError::BadState => true,
            VCpuError::Backend(_) => false,
        }
    }

    /// The backend error that caused this failure, if a backend did.
    pub fn backend_error(&self) -> (e: Option<axerrno::AxError>)
        ensures
            e == (match *self {
                VCpuError::BadState => None::<axerrno::AxError>,
                VCpuError::Backend(inner) => Some(inner),
            }),
    {
        match self {
            VCpuError::BadState => None,
            VCpuError::Backend(inner) => Some(*inner),
        }
    }
}

/// Turns the result of a backend call into a result of this crate.
pub fn from_backend<T>(result: Result<T, axerrno::AxError>) -> (r: VCpuResult<T>)
    ensures
        r == lift_backend(result),
{
    match result {
        Ok(value) => Ok(value),
        Err(e) => Err(VCpuError::Backend(e)),
    }
}

} // verus!

//! The typed failures of tensor extraction.

use ort_sys::OrtErrorCode;
use vstd::prelude::*;

verus! {

/// The engine's status code. Declared with its variants visible.
#[verifier::external_type_specification]
pub struct ExOrtErrorCode(OrtErrorCode);

/// The foreign calls whose outcome this library judges.
#[derive(Debug, PartialEq, Eq, Clone, Copy, Structural)]
pub enum ForeignCall {
    GetTensorMutableData,
    GetStringTensorDataLength,
    GetStringTensorContent,
    KernelContextGetInput,
    KernelContextGetOutput,
    KernelInfoGetAttribute,
}

/// Why an extraction gave no data.
#[derive(Debug, PartialEq, Eq, Clone, Copy)]
pub enum ExtractError {
    /// The engine reported a failure for `call`.
    ForeignCallFailed { call: ForeignCall, code: OrtErrorCode },
    /// The engine reported success for `call` but left a null pointer.
    NullOutputViolation { call: ForeignCall },
    /// The bytes `start..end` of the content buffer, which hold element
    /// `index`, are not valid UTF-8.
    TextDecodeFailed { index: usize, start: usize, end: usize },
}

/// Whether a status code reports success.
pub open spec fn succeeded(code: OrtErrorCode) -> bool {
    code == OrtErrorCode::ORT_OK
}

/// Whether the engine reported success with `code`.
pub fn is_success(code: OrtErrorCode) -> (ok: bool)
    ensures
        ok == succeeded(code),
{
    match code {
        OrtErrorCode::ORT_OK => true,
        _ => false,
    }
}

} // verus!

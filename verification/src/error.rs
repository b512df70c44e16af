//! The closed set of outcome codes shared by every operation.

use vstd::prelude::*;

verus! {

/// Outcome of one call across the boundary.
#[derive(Debug, Copy, Clone, PartialEq, Eq, Structural)]
pub enum LeanCryptoError {
    Success,
    NullPointer,
    InvalidLength,
    DeserializeError,
    SigningFailed,
    AggregateFailed,
    ProofFailed,
    InternalError,
    Panic,
}

impl LeanCryptoError {
    /// The stable integer that stands for this outcome across the boundary.
    pub open spec fn spec_code(self) -> i32 {
        match self {
            LeanCryptoError::Success => 0,
            LeanCryptoError::NullPointer => 1,
            LeanCryptoError::InvalidLength => 2,
            LeanCryptoError::DeserializeError => 3,
            LeanCryptoError::SigningFailed => 4,
            LeanCryptoError::AggregateFailed => 5,
            LeanCryptoError::ProofFailed => 6,
            LeanCryptoError::InternalError => 7,
            LeanCryptoError::Panic => 255,
        }
    }

    /// This outcome is a fault in what the caller passed, found before anything
    /// is decoded.
    pub open spec fn is_boundary_fault(self) -> bool {
        self == LeanCryptoError::NullPointer || self == LeanCryptoError::InvalidLength
    }

    #[verifier::when_used_as_spec(spec_code)]
    pub fn code(self) -> (c: i32)
        ensures
            c == self.spec_code(),
    {
        match self {
            LeanCryptoError::Success => 0,
            LeanCryptoError::NullPointer => 1,
            LeanCryptoError::InvalidLength => 2,
            LeanCryptoError::DeserializeError => 3,
            LeanCryptoError::SigningFailed => 4,
            LeanCryptoError::AggregateFailed => 5,
            LeanCryptoError::ProofFailed => 6,
            LeanCryptoError::InternalError => 7,
            LeanCryptoError::Panic => 255,
        }
    }
}

/// No two outcomes share a code, only success has the code zero, and only a
/// panic has the code 255.
pub proof fn lemma_codes_are_distinct(a: LeanCryptoError, b: LeanCryptoError)
    ensures
        a.spec_code() == b.spec_code() <==> a == b,
        a.spec_code() == 0 <==> a == LeanCryptoError::Success,
        a.spec_code() == 255 <==> a == LeanCryptoError::Panic,
{
}

} // verus!

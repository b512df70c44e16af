//! The one place where the end of an operation's body becomes an integer.

use vstd::prelude::*;
use crate::error::LeanCryptoError;

verus! {

/// How the body of an operation ended.
#[derive(Debug, Copy, Clone, PartialEq, Eq)]
pub enum BodyOutcome {
    /// The body returned, with success or with the code of its failure.
    Returned(Result<(), LeanCryptoError>),
    /// The body did not return: it was unwound by an abnormal termination.
    Unwound,
}

/// The code that stands for `outcome`.
pub open spec fn outcome_code(outcome: BodyOutcome) -> i32 {
    match outcome {
        BodyOutcome::Returned(Ok(_)) => LeanCryptoError::Success.spec_code(),
        BodyOutcome::Returned(Err(e)) => e.spec_code(),
        BodyOutcome::Unwound => LeanCryptoError::Panic.spec_code(),
    }
}

/// The code returned across the boundary for a body that ended as `outcome`.
pub fn wrap(outcome: BodyOutcome) -> (code: i32)
    ensures
        code == outcome_code(outcome),
{
    match outcome {
        BodyOutcome::Returned(result) => match result {
            Ok(_) => LeanCryptoError::Success.code(),
            Err(err) => err.code(),
        },
        BodyOutcome::Unwound => LeanCryptoError::Panic.code(),
    }
}

} // verus!

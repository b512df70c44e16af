use lean_crypto_ffi::error::LeanCryptoError;
use lean_crypto_ffi::guard::{wrap, BodyOutcome};

const ALL: [LeanCryptoError; 9] = [
    LeanCryptoError::Success,
    LeanCryptoError::NullPointer,
    LeanCryptoError::InvalidLength,
    LeanCryptoError::DeserializeError,
    LeanCryptoError::SigningFailed,
    LeanCryptoError::AggregateFailed,
    LeanCryptoError::ProofFailed,
    LeanCryptoError::InternalError,
    LeanCryptoError::Panic,
];

#[test]
fn codes_are_the_stable_integers() {
    assert_eq!(LeanCryptoError::Success.code(), 0);
    assert_eq!(LeanCryptoError::NullPointer.code(), 1);
    assert_eq!(LeanCryptoError::InvalidLength.code(), 2);
    assert_eq!(LeanCryptoError::DeserializeError.code(), 3);
    assert_eq!(LeanCryptoError::SigningFailed.code(), 4);
    assert_eq!(LeanCryptoError::AggregateFailed.code(), 5);
    assert_eq!(LeanCryptoError::ProofFailed.code(), 6);
    assert_eq!(LeanCryptoError::InternalError.code(), 7);
    assert_eq!(LeanCryptoError::Panic.code(), 255);
}

#[test]
fn only_success_has_the_code_zero() {
    for outcome in ALL {
        assert_eq!(outcome.code() == 0, outcome == LeanCryptoError::Success);
    }
}

#[test]
fn no_two_outcomes_share_a_code() {
    for (i, a) in ALL.iter().enumerate() {
        for (j, b) in ALL.iter().enumerate() {
            assert_eq!(a.code() == b.code(), i == j);
        }
    }
}

#[test]
fn wrap_maps_a_returned_success_to_zero() {
    assert_eq!(wrap(BodyOutcome::Returned(Ok(()))), 0);
}

#[test]
fn wrap_maps_a_returned_failure_to_its_code() {
    for outcome in ALL {
        assert_eq!(wrap(BodyOutcome::Returned(Err(outcome))), outcome.code());
    }
    assert_eq!(wrap(BodyOutcome::Returned(Err(LeanCryptoError::NullPointer))), 1);
    assert_eq!(wrap(BodyOutcome::Returned(Err(LeanCryptoError::InvalidLength))), 2);
    assert_eq!(wrap(BodyOutcome::Returned(Err(LeanCryptoError::DeserializeError))), 3);
    assert_eq!(wrap(BodyOutcome::Returned(Err(LeanCryptoError::SigningFailed))), 4);
    assert_eq!(wrap(BodyOutcome::Returned(Err(LeanCryptoError::AggregateFailed))), 5);
}

#[test]
fn wrap_maps_an_unwound_body_to_the_panic_code() {
    assert_eq!(wrap(BodyOutcome::Unwound), 255);
    assert_eq!(wrap(BodyOutcome::Unwound), LeanCryptoError::Panic.code());
}

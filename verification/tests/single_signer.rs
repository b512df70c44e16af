use rand::RngCore;

use lean_crypto_ffi::capability::{Checked, Produced};
use lean_crypto_ffi::error::LeanCryptoError;
use lean_crypto_ffi::output::HeapOutput;
use lean_crypto_ffi::signature::{
    leansig_key_gen, leansig_key_gen_finish, leansig_sign, leansig_sign_finish, leansig_verify,
    leansig_verify_finish, KeyGenRequest, KeyPairOutput, SignRequest, VerifyRequest,
};

const OUT_A: usize = 0x7000_1000;
const OUT_B: usize = 0x7000_2000;
const OUT_C: usize = 0x7000_3000;
const OUT_D: usize = 0x7000_4000;

fn message() -> [u8; 32] {
    let mut bytes = [0u8; 32];
    for (i, byte) in bytes.iter_mut().enumerate() {
        *byte = 0xa0 ^ (i as u8);
    }
    bytes
}

fn epochs(request: Result<KeyGenRequest, LeanCryptoError>) -> (usize, usize) {
    let request = request.unwrap();
    (request.activation_epoch, request.num_active_epochs)
}

#[test]
fn key_gen_asks_for_the_epochs_it_was_given() {
    assert_eq!(epochs(leansig_key_gen(5, 1024, OUT_A, OUT_B, OUT_C, OUT_D)), (5, 1024));
    assert_eq!(epochs(leansig_key_gen(0, 0, OUT_A, OUT_B, OUT_C, OUT_D)), (0, 0));
    assert_eq!(
        epochs(leansig_key_gen(u32::MAX, u32::MAX, OUT_A, OUT_B, OUT_C, OUT_D)),
        (u32::MAX as usize, u32::MAX as usize)
    );
}

#[test]
fn key_gen_brings_a_source_of_randomness() {
    let mut request = leansig_key_gen(5, 1024, OUT_A, OUT_B, OUT_C, OUT_D).unwrap();
    let mut drawn = [0u8; 64];
    request.rng.fill_bytes(&mut drawn);
    assert_ne!(drawn, [0u8; 64]);
    let mut again = [0u8; 64];
    request.rng.fill_bytes(&mut again);
    assert_ne!(drawn, again);
}

#[test]
fn key_gen_rejects_every_combination_of_null_output_pointers() {
    let outs = [OUT_A, OUT_B, OUT_C, OUT_D];
    for nulls in 1u32..16 {
        let mut ptrs = outs;
        for (i, ptr) in ptrs.iter_mut().enumerate() {
            if nulls & (1 << i) != 0 {
                *ptr = 0;
            }
        }
        assert_eq!(
            leansig_key_gen(1, 2, ptrs[0], ptrs[1], ptrs[2], ptrs[3]).err(),
            Some(LeanCryptoError::NullPointer)
        );
        assert_eq!(
            leansig_key_gen_finish(vec![1], vec![2], ptrs[0], ptrs[1], ptrs[2], ptrs[3]),
            Err(LeanCryptoError::NullPointer)
        );
    }
}

#[test]
fn key_gen_hands_over_both_halves_of_the_pair() {
    let pair = leansig_key_gen_finish(vec![1, 2, 3], vec![4, 5, 6, 7], OUT_A, OUT_B, OUT_C, OUT_D);
    assert_eq!(
        pair,
        Ok(KeyPairOutput {
            public_key: HeapOutput { bytes: vec![1, 2, 3], len: 3 },
            secret_key: HeapOutput { bytes: vec![4, 5, 6, 7], len: 4 },
        })
    );
}

#[test]
fn sign_asks_for_a_signature_over_what_was_passed() {
    let secret_key = [11u8, 12, 13, 14];
    let message = message();
    assert_eq!(
        leansig_sign(Some(&secret_key), 4, 77, Some(&message), 32, OUT_A, OUT_B),
        Ok(SignRequest { secret_key: &secret_key, epoch: 77, message })
    );
}

#[test]
fn sign_rejects_every_combination_of_null_output_pointers() {
    let secret_key = [11u8, 12, 13, 14];
    let message = message();
    for (out_ptr, out_len) in [(0, OUT_B), (OUT_A, 0), (0, 0)] {
        assert_eq!(
            leansig_sign(Some(&secret_key), 4, 77, Some(&message), 32, out_ptr, out_len),
            Err(LeanCryptoError::NullPointer)
        );
        // Also where the inputs have faults of their own.
        assert_eq!(
            leansig_sign(Some(&secret_key), 0, 77, Some(&message), 31, out_ptr, out_len),
            Err(LeanCryptoError::NullPointer)
        );
        assert_eq!(
            leansig_sign(None, 0, 77, None, 0, out_ptr, out_len),
            Err(LeanCryptoError::NullPointer)
        );
    }
}

#[test]
fn sign_rejects_a_null_or_empty_secret_key() {
    let secret_key = [11u8, 12, 13, 14];
    let message = message();
    assert_eq!(
        leansig_sign(None, 4, 77, Some(&message), 32, OUT_A, OUT_B),
        Err(LeanCryptoError::NullPointer)
    );
    assert_eq!(
        leansig_sign(Some(&secret_key), 0, 77, Some(&message), 32, OUT_A, OUT_B),
        Err(LeanCryptoError::InvalidLength)
    );
}

#[test]
fn sign_rejects_a_null_or_empty_message() {
    let secret_key = [11u8, 12, 13, 14];
    let message = message();
    assert_eq!(
        leansig_sign(Some(&secret_key), 4, 77, None, 32, OUT_A, OUT_B),
        Err(LeanCryptoError::NullPointer)
    );
    assert_eq!(
        leansig_sign(Some(&secret_key), 4, 77, Some(&message), 0, OUT_A, OUT_B),
        Err(LeanCryptoError::InvalidLength)
    );
}

#[test]
fn sign_rejects_a_message_of_another_length() {
    let secret_key = [11u8, 12, 13, 14];
    let memory = [0x5au8; 64];
    for len in [1usize, 16, 31, 33, 64] {
        assert_eq!(
            leansig_sign(Some(&secret_key), 4, 77, Some(&memory), len, OUT_A, OUT_B),
            Err(LeanCryptoError::InvalidLength)
        );
    }
}

#[test]
fn sign_reports_the_secret_key_before_the_message() {
    let secret_key = [11u8, 12, 13, 14];
    let message = message();
    assert_eq!(
        leansig_sign(None, 4, 77, Some(&message), 31, OUT_A, OUT_B),
        Err(LeanCryptoError::NullPointer)
    );
    assert_eq!(
        leansig_sign(Some(&secret_key), 0, 77, None, 32, OUT_A, OUT_B),
        Err(LeanCryptoError::InvalidLength)
    );
}

#[test]
fn sign_hands_over_the_signature() {
    assert_eq!(
        leansig_sign_finish(Produced::Bytes(vec![9, 9, 8, 8, 7]), OUT_A, OUT_B),
        Ok(HeapOutput { bytes: vec![9, 9, 8, 8, 7], len: 5 })
    );
}

#[test]
fn sign_reports_a_secret_key_that_did_not_decode() {
    assert_eq!(
        leansig_sign_finish(Produced::Undecodable, OUT_A, OUT_B),
        Err(LeanCryptoError::DeserializeError)
    );
    assert_eq!(
        leansig_sign_finish(Produced::Undecodable, 0, 0),
        Err(LeanCryptoError::DeserializeError)
    );
}

#[test]
fn sign_reports_a_refusal_of_the_scheme() {
    assert_eq!(
        leansig_sign_finish(Produced::Refused, OUT_A, OUT_B),
        Err(LeanCryptoError::SigningFailed)
    );
}

#[test]
fn sign_hands_nothing_over_through_a_null_output_pointer() {
    assert_eq!(
        leansig_sign_finish(Produced::Bytes(vec![1, 2]), 0, OUT_B),
        Err(LeanCryptoError::NullPointer)
    );
    assert_eq!(
        leansig_sign_finish(Produced::Bytes(vec![1, 2]), OUT_A, 0),
        Err(LeanCryptoError::NullPointer)
    );
}

#[test]
fn verify_asks_for_a_verdict_on_what_was_passed() {
    let public_key = [21u8, 22, 23];
    let signature = [31u8, 32, 33, 34, 35, 36];
    let message = message();
    assert_eq!(
        leansig_verify(Some(&public_key), 3, Some(&signature), 6, 9, Some(&message), 32, OUT_A),
        Ok(VerifyRequest { public_key: &public_key, signature: &signature, epoch: 9, message })
    );
}

#[test]
fn verify_rejects_a_null_output_pointer() {
    let public_key = [21u8, 22, 23];
    let signature = [31u8, 32, 33, 34, 35, 36];
    let message = message();
    assert_eq!(
        leansig_verify(Some(&public_key), 3, Some(&signature), 6, 9, Some(&message), 32, 0),
        Err(LeanCryptoError::NullPointer)
    );
    assert_eq!(
        leansig_verify(Some(&public_key), 0, Some(&signature), 0, 9, Some(&message), 5, 0),
        Err(LeanCryptoError::NullPointer)
    );
}

#[test]
fn verify_rejects_null_or_empty_inputs() {
    let public_key = [21u8, 22, 23];
    let signature = [31u8, 32, 33, 34, 35, 36];
    let message = message();
    assert_eq!(
        leansig_verify(None, 3, Some(&signature), 6, 9, Some(&message), 32, OUT_A),
        Err(LeanCryptoError::NullPointer)
    );
    assert_eq!(
        leansig_verify(Some(&public_key), 0, Some(&signature), 6, 9, Some(&message), 32, OUT_A),
        Err(LeanCryptoError::InvalidLength)
    );
    assert_eq!(
        leansig_verify(Some(&public_key), 3, None, 6, 9, Some(&message), 32, OUT_A),
        Err(LeanCryptoError::NullPointer)
    );
    assert_eq!(
        leansig_verify(Some(&public_key), 3, Some(&signature), 0, 9, Some(&message), 32, OUT_A),
        Err(LeanCryptoError::InvalidLength)
    );
    assert_eq!(
        leansig_verify(Some(&public_key), 3, Some(&signature), 6, 9, None, 32, OUT_A),
        Err(LeanCryptoError::NullPointer)
    );
    assert_eq!(
        leansig_verify(Some(&public_key), 3, Some(&signature), 6, 9, Some(&message), 0, OUT_A),
        Err(LeanCryptoError::InvalidLength)
    );
}

#[test]
fn verify_reports_the_leftmost_faulty_input() {
    let public_key = [21u8, 22, 23];
    let message = message();
    assert_eq!(
        leansig_verify(Some(&public_key), 0, None, 6, 9, Some(&message), 32, OUT_A),
        Err(LeanCryptoError::InvalidLength)
    );
    assert_eq!(
        leansig_verify(None, 0, Some(&public_key), 0, 9, Some(&message), 31, OUT_A),
        Err(LeanCryptoError::NullPointer)
    );
}

#[test]
fn verify_rejects_a_message_of_another_length() {
    let public_key = [21u8, 22, 23];
    let signature = [31u8, 32, 33, 34, 35, 36];
    let memory = [0u8; 40];
    for len in [1usize, 31, 33, 40] {
        assert_eq!(
            leansig_verify(Some(&public_key), 3, Some(&signature), 6, 9, Some(&memory), len, OUT_A),
            Err(LeanCryptoError::InvalidLength)
        );
    }
}

#[test]
fn a_signature_that_holds_is_reported_as_one() {
    assert_eq!(leansig_verify_finish(Checked::Verdict(true)), Ok(1));
}

#[test]
fn a_signature_that_does_not_hold_is_reported_as_zero_and_is_no_failure() {
    assert_eq!(leansig_verify_finish(Checked::Verdict(false)), Ok(0));
}

#[test]
fn verify_reports_inputs_that_did_not_decode() {
    assert_eq!(
        leansig_verify_finish(Checked::Undecodable),
        Err(LeanCryptoError::DeserializeError)
    );
}

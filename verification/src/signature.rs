//! Key generation, signing and verification for a single signer.
//!
//! Each operation comes in two halves. The first checks what the caller
//! passed and, where nothing is wrong, yields the request to put to the
//! signature scheme. The second takes the scheme's answer and yields what is
//! to be stored behind the output pointers, or the code of the failure.

use rand::rngs::ThreadRng;
use vstd::prelude::*;
use crate::buffer::{
    bytes_behind, covers, earlier, message_fault, read_message, read_slice, slice_fault,
    MESSAGE_LENGTH,
};
use crate::capability::{verdict_byte, Checked, Produced};
use crate::error::LeanCryptoError;
use crate::output::{ensure_out_ptrs, out_fault, write_output, HeapOutput};

verus! {

/// The handle of `rand` to the generator of the calling thread. Nothing is
/// known here of what is inside it.
#[verifier::external_type_specification]
#[verifier::external_body]
pub struct ExThreadRng(rand::rngs::ThreadRng);

/// `rand::rng` takes nothing and returns a handle to the generator of the
/// calling thread, which `rand` seeds from the operating system when the
/// thread first asks for it. Nothing is claimed of the handle or of what will
/// be drawn from it. Where the operating system gives no seed, `rand` panics;
/// no argument decides that.
pub assume_specification[ rand::rng ]() -> (rng: ThreadRng);

/// Request for a fresh key pair, with the source of randomness to draw it from.
#[derive(Debug)]
pub struct KeyGenRequest {
    pub rng: ThreadRng,
    pub activation_epoch: usize,
    pub num_active_epochs: usize,
}

/// The two halves of a fresh key pair on their way to the caller.
#[derive(Debug, PartialEq, Eq)]
pub struct KeyPairOutput {
    pub public_key: HeapOutput,
    pub secret_key: HeapOutput,
}

/// Request for a signature over `message` at `epoch`.
#[derive(Debug, PartialEq, Eq)]
pub struct SignRequest<'a> {
    pub secret_key: &'a [u8],
    pub epoch: u32,
    pub message: [u8; MESSAGE_LENGTH],
}

/// Request for a verdict on `signature` over `message` at `epoch`.
#[derive(Debug, PartialEq, Eq)]
pub struct VerifyRequest<'a> {
    pub public_key: &'a [u8],
    pub signature: &'a [u8],
    pub epoch: u32,
    pub message: [u8; MESSAGE_LENGTH],
}

/// The fault that key generation finds in what the caller passed, if any.
pub open spec fn key_gen_fault(
    out_pk_ptr: usize,
    out_pk_len: usize,
    out_sk_ptr: usize,
    out_sk_len: usize,
) -> Option<LeanCryptoError> {
    out_fault(seq![out_pk_ptr, out_pk_len, out_sk_ptr, out_sk_len])
}

/// The fault that signing finds in what the caller passed, if any: output
/// pointers first, then the secret key, then the message.
pub open spec fn sign_fault(
    sk_ptr: Option<&[u8]>,
    sk_len: usize,
    msg_ptr: Option<&[u8]>,
    msg_len: usize,
    out_sig_ptr: usize,
    out_sig_len: usize,
) -> Option<LeanCryptoError> {
    earlier(
        out_fault(seq![out_sig_ptr, out_sig_len]),
        earlier(slice_fault(sk_ptr, sk_len), message_fault(msg_ptr, msg_len)),
    )
}

/// The fault that verification finds in what the caller passed, if any:
/// the output pointer first, then the public key, the signature, the message.
pub open spec fn verify_fault(
    pk_ptr: Option<&[u8]>,
    pk_len: usize,
    sig_ptr: Option<&[u8]>,
    sig_len: usize,
    msg_ptr: Option<&[u8]>,
    msg_len: usize,
    out_is_valid: usize,
) -> Option<LeanCryptoError> {
    earlier(
        out_fault(seq![out_is_valid]),
        earlier(
            slice_fault(pk_ptr, pk_len),
            earlier(slice_fault(sig_ptr, sig_len), message_fault(msg_ptr, msg_len)),
        ),
    )
}

/// Opens key generation: the request for a key pair that is active for
/// `num_active_epochs` epochs from `activation_epoch` on, unless one of the
/// four output pointers is null.
pub fn leansig_key_gen(
    activation_epoch: u32,
    num_active_epochs: u32,
    out_pk_ptr: usize,
    out_pk_len: usize,
    out_sk_ptr: usize,
    out_sk_len: usize,
) -> (r: Result<KeyGenRequest, LeanCryptoError>)
    ensures
        match r {
            Ok(request) => {
                &&& key_gen_fault(out_pk_ptr, out_pk_len, out_sk_ptr, out_sk_len) is None
                &&& request.activation_epoch == activation_epoch
                &&& request.num_active_epochs == num_active_epochs
            },
            Err(e) => key_gen_fault(out_pk_ptr, out_pk_len, out_sk_ptr, out_sk_len) == Some(e),
        },
        // Whatever is reported here is a fault at the boundary.
        r matches Err(e) ==> e.is_boundary_fault(),
        // A null output pointer is reported, and no request is made.
        out_pk_ptr == 0 || out_pk_len == 0 || out_sk_ptr == 0 || out_sk_len == 0 ==> r matches Err(
            LeanCryptoError::NullPointer,
        ),
{
    let ptrs = [out_pk_ptr, out_pk_len, out_sk_ptr, out_sk_len];
    proof {
        let listed = seq![out_pk_ptr, out_pk_len, out_sk_ptr, out_sk_len];
        assert(ptrs@ =~= listed);
        assert(listed[0] == out_pk_ptr && listed[1] == out_pk_len && listed[2] == out_sk_ptr
            && listed[3] == out_sk_len);
    }
    ensure_out_ptrs(&ptrs)?;
    let rng = rand::rng();
    Ok(
        KeyGenRequest {
            rng,
            activation_epoch: activation_epoch as usize,
            num_active_epochs: num_active_epochs as usize,
        },
    )
}

/// Closes key generation: the two serialized halves of the key pair become
/// outputs for the caller, the public key behind `out_pk_ptr` and
/// `out_pk_len`, the secret key behind `out_sk_ptr` and `out_sk_len`. Where
/// one of the four is null, neither is handed out.
pub fn leansig_key_gen_finish(
    public_key: Vec<u8>,
    secret_key: Vec<u8>,
    out_pk_ptr: usize,
    out_pk_len: usize,
    out_sk_ptr: usize,
    out_sk_len: usize,
) -> (r: Result<KeyPairOutput, LeanCryptoError>)
    ensures
        match r {
            Ok(pair) => {
                &&& key_gen_fault(out_pk_ptr, out_pk_len, out_sk_ptr, out_sk_len) is None
                &&& pair.public_key.bytes@ == public_key@
                &&& pair.public_key.len == public_key@.len()
                &&& pair.secret_key.bytes@ == secret_key@
                &&& pair.secret_key.len == secret_key@.len()
            },
            Err(e) => key_gen_fault(out_pk_ptr, out_pk_len, out_sk_ptr, out_sk_len) == Some(e),
        },
{
    proof {
        let four = seq![out_pk_ptr, out_pk_len, out_sk_ptr, out_sk_len];
        let first = seq![out_pk_ptr, out_pk_len];
        let second = seq![out_sk_ptr, out_sk_len];
        assert(four[0] == first[0] && four[1] == first[1]);
        assert(four[2] == second[0] && four[3] == second[1]);
    }
    let public_key = write_output(public_key, out_pk_ptr, out_pk_len)?;
    let secret_key = write_output(secret_key, out_sk_ptr, out_sk_len)?;
    Ok(KeyPairOutput { public_key, secret_key })
}

/// Opens signing: the request to sign the message behind `msg_ptr` at `epoch`
/// with the secret key whose bytes lie behind `sk_ptr`, unless the caller
/// passed something faulty. Nothing is decoded here.
pub fn leansig_sign<'a>(
    sk_ptr: Option<&'a [u8]>,
    sk_len: usize,
    epoch: u32,
    msg_ptr: Option<&'a [u8]>,
    msg_len: usize,
    out_sig_ptr: usize,
    out_sig_len: usize,
) -> (r: Result<SignRequest<'a>, LeanCryptoError>)
    requires
        covers(sk_ptr, sk_len),
        covers(msg_ptr, msg_len),
    ensures
        match r {
            Ok(request) => {
                &&& sign_fault(sk_ptr, sk_len, msg_ptr, msg_len, out_sig_ptr, out_sig_len) is None
                &&& request.secret_key@ == bytes_behind(sk_ptr, sk_len)
                &&& request.epoch == epoch
                &&& request.message@ == bytes_behind(msg_ptr, msg_len)
            },
            Err(e) => sign_fault(sk_ptr, sk_len, msg_ptr, msg_len, out_sig_ptr, out_sig_len)
                == Some(e),
        },
        // Whatever is reported here is a fault at the boundary.
        r matches Err(e) ==> e.is_boundary_fault(),
        // A null output pointer is reported whatever else was passed.
        out_sig_ptr == 0 || out_sig_len == 0 ==> r matches Err(LeanCryptoError::NullPointer),
        // A null or empty input is reported, and no request is made.
        slice_fault(sk_ptr, sk_len) is Some || slice_fault(msg_ptr, msg_len) is Some ==> r is Err,
        // A message of the wrong length is reported as such where no pointer is null.
        out_sig_ptr != 0 && out_sig_len != 0 && sk_ptr is Some && msg_ptr is Some && msg_len
            != MESSAGE_LENGTH ==> r matches Err(LeanCryptoError::InvalidLength),
{
    let ptrs = [out_sig_ptr, out_sig_len];
    proof {
        let listed = seq![out_sig_ptr, out_sig_len];
        assert(ptrs@ =~= listed);
        assert(listed[0] == out_sig_ptr && listed[1] == out_sig_len);
    }
    ensure_out_ptrs(&ptrs)?;
    let secret_key = read_slice(sk_ptr, sk_len)?;
    let message = read_message(msg_ptr, msg_len)?;
    Ok(SignRequest { secret_key, epoch, message })
}

/// Closes signing: the serialized signature becomes an output for the caller
/// behind `out_sig_ptr` and `out_sig_len`. A secret key that did not decode is
/// a `DeserializeError`; a refusal of the scheme to sign is `SigningFailed`.
pub fn leansig_sign_finish(outcome: Produced, out_sig_ptr: usize, out_sig_len: usize) -> (r: Result<
    HeapOutput,
    LeanCryptoError,
>)
    ensures
        outcome is Undecodable ==> r matches Err(LeanCryptoError::DeserializeError),
        outcome is Refused ==> r matches Err(LeanCryptoError::SigningFailed),
        outcome matches Produced::Bytes(signature) ==> match r {
            Ok(out) => {
                &&& out_fault(seq![out_sig_ptr, out_sig_len]) is None
                &&& out.bytes@ == signature@
                &&& out.len == signature@.len()
            },
            Err(e) => out_fault(seq![out_sig_ptr, out_sig_len]) == Some(e),
        },
{
    match outcome {
        Produced::Undecodable => Err(LeanCryptoError::DeserializeError),
        Produced::Refused => Err(LeanCryptoError::SigningFailed),
        Produced::Bytes(signature) => write_output(signature, out_sig_ptr, out_sig_len),
    }
}

/// Opens verification: the request for a verdict on the signature behind
/// `sig_ptr`, over the message behind `msg_ptr` at `epoch`, under the public
/// key behind `pk_ptr`, unless the caller passed something faulty. Nothing is
/// decoded here.
pub fn leansig_verify<'a>(
    pk_ptr: Option<&'a [u8]>,
    pk_len: usize,
    sig_ptr: Option<&'a [u8]>,
    sig_len: usize,
    epoch: u32,
    msg_ptr: Option<&'a [u8]>,
    msg_len: usize,
    out_is_valid: usize,
) -> (r: Result<VerifyRequest<'a>, LeanCryptoError>)
    requires
        covers(pk_ptr, pk_len),
        covers(sig_ptr, sig_len),
        covers(msg_ptr, msg_len),
    ensures
        match r {
            Ok(request) => {
                &&& verify_fault(pk_ptr, pk_len, sig_ptr, sig_len, msg_ptr, msg_len, out_is_valid)
                    is None
                &&& request.public_key@ == bytes_behind(pk_ptr, pk_len)
                &&& request.signature@ == bytes_behind(sig_ptr, sig_len)
                &&& request.epoch == epoch
                &&& request.message@ == bytes_behind(msg_ptr, msg_len)
            },
            Err(e) => verify_fault(pk_ptr, pk_len, sig_ptr, sig_len, msg_ptr, msg_len, out_is_valid)
                == Some(e),
        },
        // Whatever is reported here is a fault at the boundary.
        r matches Err(e) ==> e.is_boundary_fault(),
        // A null output pointer is reported whatever else was passed.
        out_is_valid == 0 ==> r matches Err(LeanCryptoError::NullPointer),
        // A null or empty input is reported, and no request is made.
        slice_fault(pk_ptr, pk_len) is Some || slice_fault(sig_ptr, sig_len) is Some || slice_fault(
            msg_ptr,
            msg_len,
        ) is Some ==> r is Err,
        // A message of the wrong length is reported as such where no pointer is null.
        out_is_valid != 0 && pk_ptr is Some && sig_ptr is Some && msg_ptr is Some && msg_len
            != MESSAGE_LENGTH ==> r matches Err(LeanCryptoError::InvalidLength),
{
    let ptrs = [out_is_valid];
    proof {
        let listed = seq![out_is_valid];
        assert(ptrs@ =~= listed);
        assert(listed[0] == out_is_valid);
    }
    ensure_out_ptrs(&ptrs)?;
    let public_key = read_slice(pk_ptr, pk_len)?;
    let signature = read_slice(sig_ptr, sig_len)?;
    let message = read_message(msg_ptr, msg_len)?;
    Ok(VerifyRequest { public_key, signature, epoch, message })
}

/// Closes verification: the byte to store behind the output pointer, one for
/// a signature that holds and zero for one that does not. Both are success;
/// only an input that did not decode is a failure, a `DeserializeError`.
pub fn leansig_verify_finish(outcome: Checked) -> (r: Result<u8, LeanCryptoError>)
    ensures
        outcome is Undecodable ==> r matches Err(LeanCryptoError::DeserializeError),
        outcome matches Checked::Verdict(valid) ==> r == Ok::<u8, LeanCryptoError>(
            verdict_byte(valid),
        ),
{
    match outcome {
        Checked::Undecodable => Err(LeanCryptoError::DeserializeError),
        Checked::Verdict(valid) => Ok(
            if valid {
                1
            } else {
                0
            },
        ),
    }
}

} // verus!

//! Aggregation of many signatures into one, and its verification.
//!
//! As for a single signer, each operation comes in two halves: the first
//! checks what the caller passed and yields the request to put to the
//! aggregation scheme, the second turns the scheme's answer into what is
//! stored behind the output pointers, or into the code of the failure.

use vstd::prelude::*;
use crate::buffer::{
    buffers_bytes, buffers_fault, bytes_behind, covers, covers_buffers, earlier,
    lemma_buffers_fault_is_boundary, message_fault, read_buffers, read_message, read_slice,
    slice_fault, views_bytes, LeanBuffer, MESSAGE_LENGTH,
};
use crate::capability::{verdict_byte, Checked, Produced};
use crate::error::LeanCryptoError;
use crate::output::{ensure_out_ptrs, out_fault, write_output, HeapOutput};

verus! {

/// Request to combine `signatures`, one for each of `public_keys` in order,
/// over `message` at `epoch`.
#[derive(Debug, PartialEq, Eq)]
pub struct AggregateRequest<'a> {
    pub public_keys: Vec<&'a [u8]>,
    pub signatures: Vec<&'a [u8]>,
    pub message: [u8; MESSAGE_LENGTH],
    pub epoch: u32,
}

/// Request for a verdict on `aggregate` over `message` at `epoch`, under
/// `public_keys`.
#[derive(Debug, PartialEq, Eq)]
pub struct VerifyAggregateRequest<'a> {
    pub public_keys: Vec<&'a [u8]>,
    pub aggregate: &'a [u8],
    pub message: [u8; MESSAGE_LENGTH],
    pub epoch: u32,
}

/// The fault of two lists that are to run in parallel, if any: that their
/// lengths differ.
pub open spec fn parallel_fault(first_len: usize, second_len: usize) -> Option<LeanCryptoError> {
    if first_len != second_len {
        Some(LeanCryptoError::InvalidLength)
    } else {
        None
    }
}

/// The fault that aggregation finds in what the caller passed, if any: output
/// pointers first, then the lengths of the two lists against each other, the
/// message, the public keys, the signatures.
pub open spec fn aggregate_fault(
    pub_keys_ptr: Option<&[LeanBuffer]>,
    pub_keys_len: usize,
    sigs_ptr: Option<&[LeanBuffer]>,
    sigs_len: usize,
    msg_ptr: Option<&[u8]>,
    msg_len: usize,
    out_ptr: usize,
    out_len: usize,
) -> Option<LeanCryptoError> {
    earlier(
        out_fault(seq![out_ptr, out_len]),
        earlier(
            parallel_fault(pub_keys_len, sigs_len),
            earlier(
                message_fault(msg_ptr, msg_len),
                earlier(
                    buffers_fault(pub_keys_ptr, pub_keys_len),
                    buffers_fault(sigs_ptr, sigs_len),
                ),
            ),
        ),
    )
}

/// The fault that aggregate verification finds in what the caller passed, if
/// any: the output pointer first, then the message, the public keys, the
/// aggregate.
pub open spec fn verify_aggregate_fault(
    pub_keys_ptr: Option<&[LeanBuffer]>,
    pub_keys_len: usize,
    agg_ptr: Option<&[u8]>,
    agg_len: usize,
    msg_ptr: Option<&[u8]>,
    msg_len: usize,
    out_is_valid: usize,
) -> Option<LeanCryptoError> {
    earlier(
        out_fault(seq![out_is_valid]),
        earlier(
            message_fault(msg_ptr, msg_len),
            earlier(buffers_fault(pub_keys_ptr, pub_keys_len), slice_fault(agg_ptr, agg_len)),
        ),
    )
}

/// Opens aggregation: the request to combine the signatures listed behind
/// `sigs_ptr`, one for each public key listed behind `pub_keys_ptr`, over the
/// message behind `msg_ptr` at `epoch`, unless the caller passed something
/// faulty. Nothing is decoded here.
pub fn leanmultisig_aggregate<'a>(
    pub_keys_ptr: Option<&'a [LeanBuffer<'a>]>,
    pub_keys_len: usize,
    sigs_ptr: Option<&'a [LeanBuffer<'a>]>,
    sigs_len: usize,
    msg_ptr: Option<&'a [u8]>,
    msg_len: usize,
    epoch: u32,
    out_ptr: usize,
    out_len: usize,
) -> (r: Result<AggregateRequest<'a>, LeanCryptoError>)
    requires
        covers_buffers(pub_keys_ptr, pub_keys_len),
        covers_buffers(sigs_ptr, sigs_len),
        covers(msg_ptr, msg_len),
    ensures
        match r {
            Ok(request) => {
                &&& aggregate_fault(
                    pub_keys_ptr,
                    pub_keys_len,
                    sigs_ptr,
                    sigs_len,
                    msg_ptr,
                    msg_len,
                    out_ptr,
                    out_len,
                ) is None
                &&& views_bytes(request.public_keys@) == buffers_bytes(pub_keys_ptr, pub_keys_len)
                &&& views_bytes(request.signatures@) == buffers_bytes(sigs_ptr, sigs_len)
                &&& request.public_keys@.len() == request.signatures@.len()
                &&& request.message@ == bytes_behind(msg_ptr, msg_len)
                &&& request.epoch == epoch
            },
            Err(e) => aggregate_fault(
                pub_keys_ptr,
                pub_keys_len,
                sigs_ptr,
                sigs_len,
                msg_ptr,
                msg_len,
                out_ptr,
                out_len,
            ) == Some(e),
        },
        // Whatever is reported here is a fault at the boundary.
        r matches Err(e) ==> e.is_boundary_fault(),
        // A null output pointer is reported whatever else was passed.
        out_ptr == 0 || out_len == 0 ==> r matches Err(LeanCryptoError::NullPointer),
        // A null or empty input is reported, and no request is made.
        slice_fault(msg_ptr, msg_len) is Some || buffers_fault(pub_keys_ptr, pub_keys_len) is Some
            || buffers_fault(sigs_ptr, sigs_len) is Some ==> r is Err,
        // Lists of different lengths are reported as such whatever they hold.
        out_ptr != 0 && out_len != 0 && pub_keys_len != sigs_len ==> r matches Err(
            LeanCryptoError::InvalidLength,
        ),
        // A message of the wrong length is reported as such where no pointer before it is null.
        out_ptr != 0 && out_len != 0 && msg_ptr is Some && msg_len != MESSAGE_LENGTH ==> r matches Err(
            LeanCryptoError::InvalidLength,
        ),
{
    let ptrs = [out_ptr, out_len];
    proof {
        let listed = seq![out_ptr, out_len];
        assert(ptrs@ =~= listed);
        assert(listed[0] == out_ptr && listed[1] == out_len);
        lemma_buffers_fault_is_boundary(pub_keys_ptr, pub_keys_len);
        lemma_buffers_fault_is_boundary(sigs_ptr, sigs_len);
    }
    ensure_out_ptrs(&ptrs)?;
    if pub_keys_len != sigs_len {
        return Err(LeanCryptoError::InvalidLength);
    }
    let message = read_message(msg_ptr, msg_len)?;
    let public_keys = read_buffers(pub_keys_ptr, pub_keys_len)?;
    let signatures = read_buffers(sigs_ptr, sigs_len)?;
    Ok(AggregateRequest { public_keys, signatures, message, epoch })
}

/// Closes aggregation: the serialized aggregate becomes an output for the
/// caller behind `out_ptr` and `out_len`. A key or signature that did not
/// decode is a `DeserializeError`; a refusal of the scheme to combine them is
/// `AggregateFailed`.
pub fn leanmultisig_aggregate_finish(outcome: Produced, out_ptr: usize, out_len: usize) -> (r:
    Result<HeapOutput, LeanCryptoError>)
    ensures
        outcome is Undecodable ==> r matches Err(LeanCryptoError::DeserializeError),
        outcome is Refused ==> r matches Err(LeanCryptoError::AggregateFailed),
        outcome matches Produced::Bytes(aggregate) ==> match r {
            Ok(out) => {
                &&& out_fault(seq![out_ptr, out_len]) is None
                &&& out.bytes@ == aggregate@
                &&& out.len == aggregate@.len()
            },
            Err(e) => out_fault(seq![out_ptr, out_len]) == Some(e),
        },
{
    match outcome {
        Produced::Undecodable => Err(LeanCryptoError::DeserializeError),
        Produced::Refused => Err(LeanCryptoError::AggregateFailed),
        Produced::Bytes(aggregate) => write_output(aggregate, out_ptr, out_len),
    }
}

/// Opens aggregate verification: the request for a verdict on the aggregate
/// behind `agg_ptr`, over the message behind `msg_ptr` at `epoch`, under the
/// public keys listed behind `pub_keys_ptr`, unless the caller passed
/// something faulty. Nothing is decoded here.
pub fn leanmultisig_verify_aggregate<'a>(
    pub_keys_ptr: Option<&'a [LeanBuffer<'a>]>,
    pub_keys_len: usize,
    agg_ptr: Option<&'a [u8]>,
    agg_len: usize,
    msg_ptr: Option<&'a [u8]>,
    msg_len: usize,
    epoch: u32,
    out_is_valid: usize,
) -> (r: Result<VerifyAggregateRequest<'a>, LeanCryptoError>)
    requires
        covers_buffers(pub_keys_ptr, pub_keys_len),
        covers(agg_ptr, agg_len),
        covers(msg_ptr, msg_len),
    ensures
        match r {
            Ok(request) => {
                &&& verify_aggregate_fault(
                    pub_keys_ptr,
                    pub_keys_len,
                    agg_ptr,
                    agg_len,
                    msg_ptr,
                    msg_len,
                    out_is_valid,
                ) is None
                &&& views_bytes(request.public_keys@) == buffers_bytes(pub_keys_ptr, pub_keys_len)
                &&& request.aggregate@ == bytes_behind(agg_ptr, agg_len)
                &&& request.message@ == bytes_behind(msg_ptr, msg_len)
                &&& request.epoch == epoch
            },
            Err(e) => verify_aggregate_fault(
                pub_keys_ptr,
                pub_keys_len,
                agg_ptr,
                agg_len,
                msg_ptr,
                msg_len,
                out_is_valid,
            ) == Some(e),
        },
        // Whatever is reported here is a fault at the boundary.
        r matches Err(e) ==> e.is_boundary_fault(),
        // A null output pointer is reported whatever else was passed.
        out_is_valid == 0 ==> r matches Err(LeanCryptoError::NullPointer),
        // A null or empty input is reported, and no request is made.
        slice_fault(msg_ptr, msg_len) is Some || buffers_fault(pub_keys_ptr, pub_keys_len) is Some
            || slice_fault(agg_ptr, agg_len) is Some ==> r is Err,
        // A message of the wrong length is reported as such where no pointer before it is null.
        out_is_valid != 0 && msg_ptr is Some && msg_len != MESSAGE_LENGTH ==> r matches Err(
            LeanCryptoError::InvalidLength,
        ),
{
    let ptrs = [out_is_valid];
    proof {
        let listed = seq![out_is_valid];
        assert(ptrs@ =~= listed);
        assert(listed[0] == out_is_valid);
        lemma_buffers_fault_is_boundary(pub_keys_ptr, pub_keys_len);
    }
    ensure_out_ptrs(&ptrs)?;
    let message = read_message(msg_ptr, msg_len)?;
    let public_keys = read_buffers(pub_keys_ptr, pub_keys_len)?;
    let aggregate = read_slice(agg_ptr, agg_len)?;
    Ok(VerifyAggregateRequest { public_keys, aggregate, message, epoch })
}

/// Closes aggregate verification: the byte to store behind the output
/// pointer, one for an aggregate that holds and zero for one that does not.
/// Both are success; only an input that did not decode is a failure, a
/// `DeserializeError`.
pub fn leanmultisig_verify_aggregate_finish(outcome: Checked) -> (r: Result<u8, LeanCryptoError>)
    ensures
        outcome is Undecodable ==> r matches Err(LeanCryptoError::DeserializeError),
        outcome matches Checked::Verdict(valid) ==> r == Ok::<u8, LeanCryptoError>(
            verdict_byte(valid),
        ),
{
    match outcome {
        Checked::Undecodable => Err(LeanCryptoError::DeserializeError),
        Checked::Verdict(valid) => Ok(
            if valid {
                1
            } else {
                0
            },
        ),
    }
}

} // verus!

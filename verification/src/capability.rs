//! What the cryptographic capability reports back.
//!
//! Keys, signatures and aggregates are opaque here: an operation hands their
//! bytes to the capability as a request, and learns from one of these answers
//! how the capability fared with them.

use vstd::prelude::*;

verus! {

/// Answer to a request that is to yield a serialized value.
#[derive(Debug, PartialEq, Eq)]
pub enum Produced {
    /// Some input did not decode to a value of its kind.
    Undecodable,
    /// The inputs decoded, and the scheme refused to produce a result from them.
    Refused,
    /// The serialized result.
    Bytes(Vec<u8>),
}

/// Answer to a request that is to yield a verdict.
#[derive(Debug, Copy, Clone, PartialEq, Eq)]
pub enum Checked {
    /// Some input did not decode to a value of its kind.
    Undecodable,
    /// The inputs decoded; the flag says whether the signature holds.
    Verdict(bool),
}

/// The byte that reports the outcome of a check, one for valid and zero for invalid.
pub open spec fn verdict_byte(valid: bool) -> u8 {
    if valid {
        1
    } else {
        0
    }
}

} // verus!

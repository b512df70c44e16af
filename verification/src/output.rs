//! Handing freshly produced bytes over to the caller, and taking them back.
//!
//! An output pointer is never followed in this layer: it is known by its
//! address alone, and the null pointer has the address zero. What an
//! operation produces is returned as a value; whoever holds the pointers
//! stores it behind them once the operation has succeeded. A release goes
//! the same way: this layer says what is to be given back to the allocator.

use vstd::prelude::*;
use crate::error::LeanCryptoError;

verus! {

/// The fault that the output-pointer check finds among the addresses `ptrs`, if any.
pub open spec fn out_fault(ptrs: Seq<usize>) -> Option<LeanCryptoError> {
    if exists|i: int| 0 <= i < ptrs.len() && ptrs[i] == 0 {
        Some(LeanCryptoError::NullPointer)
    } else {
        None
    }
}

/// The output-pointer check: fails with `NullPointer` if any of the addresses
/// is that of the null pointer.
pub fn ensure_out_ptrs(ptrs: &[usize]) -> (r: Result<(), LeanCryptoError>)
    ensures
        match r {
            Ok(_) => out_fault(ptrs@) is None,
            Err(e) => out_fault(ptrs@) == Some(e),
        },
{
    let mut i: usize = 0;
    while i < ptrs.len()
        invariant
            i <= ptrs@.len(),
            forall|j: int| 0 <= j < i ==> ptrs@[j] != 0,
        decreases ptrs@.len() - i,
    {
        if ptrs[i] == 0 {
            return Err(LeanCryptoError::NullPointer);
        }
        i += 1;
    }
    Ok(())
}

/// A byte sequence owned by this layer on its way to the caller: the
/// allocation, and the length that is reported beside it.
#[derive(Debug, PartialEq, Eq)]
pub struct HeapOutput {
    pub bytes: Vec<u8>,
    pub len: usize,
}

/// An allocation that was handed to a caller, as the caller knows it: its
/// address and its length.
#[derive(Debug, Copy, Clone, PartialEq, Eq)]
pub struct Allocation {
    pub ptr: usize,
    pub len: usize,
}

/// What a release of `ptr` with `len` gives back to the allocator: nothing
/// for the null pointer, whatever the length, and else the allocation at
/// `ptr` with exactly the length `len`.
pub open spec fn released(ptr: usize, len: usize) -> Option<Allocation> {
    if ptr == 0 {
        None
    } else {
        Some(Allocation { ptr, len })
    }
}

/// Turns `bytes` into an output for the caller, to be stored behind `out_ptr`
/// and `out_len`, unless one of the two is null. What comes back holds
/// exactly `bytes`, and reports their number as the length to release them with.
pub fn write_output(bytes: Vec<u8>, out_ptr: usize, out_len: usize) -> (r: Result<
    HeapOutput,
    LeanCryptoError,
>)
    ensures
        match r {
            Ok(out) => {
                &&& out_fault(seq![out_ptr, out_len]) is None
                &&& out.bytes@ == bytes@
                &&& out.len == bytes@.len()
            },
            Err(e) => out_fault(seq![out_ptr, out_len]) == Some(e),
        },
{
    let ghost ptrs = seq![out_ptr, out_len];
    if out_ptr == 0 || out_len == 0 {
        assert(ptrs[0] == 0 || ptrs[1] == 0);
        return Err(LeanCryptoError::NullPointer);
    }
    let len = bytes.len();
    Ok(HeapOutput { bytes, len })
}

/// The release of an allocation that `write_output` handed out: what is to
/// be given back to the allocator for the pointer `ptr` and the length `len`
/// that the caller returns. The null pointer is accepted with any length, and
/// nothing is to be done for it.
pub fn lean_free(ptr: usize, len: usize) -> (r: Option<Allocation>)
    ensures
        r == released(ptr, len),
        ptr == 0 ==> r is None,
{
    if ptr == 0 {
        return None;
    }
    Some(Allocation { ptr, len })
}

} // verus!

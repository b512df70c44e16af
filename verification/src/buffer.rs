//! Checked views of the memory that a caller passes in.
//!
//! A pointer that came across the boundary is held as an `Option`: `None` is
//! the null pointer, `Some` holds the memory that the pointer addresses. The
//! length that came with it stays a number of its own, since the caller may
//! claim any length, also beside a null pointer.

use vstd::prelude::*;
use crate::error::LeanCryptoError;

verus! {

/// Length in bytes of every message that is signed or verified.
pub const MESSAGE_LENGTH: usize = 32;

/// One element of a buffer list: a pointer to bytes and the number of bytes
/// that the caller claims behind it.
#[derive(Debug, Copy, Clone, PartialEq, Eq)]
pub struct LeanBuffer<'a> {
    pub ptr: Option<&'a [u8]>,
    pub len: usize,
}

impl<'a> LeanBuffer<'a> {
    /// The memory behind the pointer, where there is any, covers the bytes claimed.
    pub open spec fn wf(self) -> bool {
        covers(self.ptr, self.len)
    }

    /// The fault that the single-buffer check finds in this element, if any.
    pub open spec fn fault(self) -> Option<LeanCryptoError> {
        slice_fault(self.ptr, self.len)
    }

    /// The bytes that this element describes.
    pub open spec fn bytes(self) -> Seq<u8>
        recommends
            self.ptr is Some,
    {
        bytes_behind(self.ptr, self.len)
    }

    /// The element that points at `memory` and claims all of it.
    pub fn new(memory: &'a [u8]) -> (buffer: Self)
        ensures
            buffer.ptr == Some(memory),
            buffer.len == memory@.len(),
            buffer.wf(),
    {
        LeanBuffer { ptr: Some(memory), len: memory.len() }
    }

    /// The element with the null pointer, beside which `len` bytes are claimed.
    pub fn null(len: usize) -> (buffer: Self)
        ensures
            buffer.ptr is None,
            buffer.len == len,
            buffer.wf(),
    {
        LeanBuffer { ptr: None, len }
    }
}

/// The memory behind `ptr`, where there is any, covers the `len` items claimed.
///
/// The caller owes this for every pointer that it passes together with a length.
pub open spec fn covers<T>(ptr: Option<&[T]>, len: usize) -> bool {
    ptr matches Some(memory) ==> len <= memory@.len()
}

/// The first `len` bytes of the memory behind `ptr`.
pub open spec fn bytes_behind(ptr: Option<&[u8]>, len: usize) -> Seq<u8>
    recommends
        ptr is Some,
{
    ptr.unwrap()@.subrange(0, len as int)
}

/// The earlier of two faults: `first` where there is one, else `second`.
pub open spec fn earlier(
    first: Option<LeanCryptoError>,
    second: Option<LeanCryptoError>,
) -> Option<LeanCryptoError> {
    if first is Some {
        first
    } else {
        second
    }
}

/// The fault that the single-buffer check finds, if any: a null pointer, or
/// else a length of zero.
pub open spec fn slice_fault(ptr: Option<&[u8]>, len: usize) -> Option<LeanCryptoError> {
    if ptr is None {
        Some(LeanCryptoError::NullPointer)
    } else if len == 0 {
        Some(LeanCryptoError::InvalidLength)
    } else {
        None
    }
}

/// The fault that the fixed-length message check finds, if any: that of the
/// single-buffer check, or else a length other than `MESSAGE_LENGTH`.
pub open spec fn message_fault(ptr: Option<&[u8]>, len: usize) -> Option<LeanCryptoError> {
    earlier(
        slice_fault(ptr, len),
        if len != MESSAGE_LENGTH {
            Some(LeanCryptoError::InvalidLength)
        } else {
            None
        },
    )
}

/// The fault of the leftmost faulty element of `buffers`, if any element is faulty.
pub open spec fn first_fault(buffers: Seq<LeanBuffer>) -> Option<LeanCryptoError>
    decreases buffers.len(),
{
    if buffers.len() == 0 {
        None
    } else {
        earlier(first_fault(buffers.drop_last()), buffers.last().fault())
    }
}

/// The fault that the buffer-list check finds, if any. An empty list has none,
/// whatever its pointer; otherwise a null pointer is one, and else the
/// leftmost faulty element decides.
pub open spec fn buffers_fault(ptr: Option<&[LeanBuffer]>, len: usize) -> Option<LeanCryptoError> {
    if len == 0 {
        None
    } else if ptr is None {
        Some(LeanCryptoError::NullPointer)
    } else {
        first_fault(ptr.unwrap()@.subrange(0, len as int))
    }
}

/// The byte strings that the first `len` elements behind `ptr` describe, in order.
pub open spec fn buffers_bytes(ptr: Option<&[LeanBuffer]>, len: usize) -> Seq<Seq<u8>> {
    if len == 0 {
        Seq::empty()
    } else {
        Seq::new(len as nat, |i: int| ptr.unwrap()@[i].bytes())
    }
}

/// The byte strings behind a list of views, in order.
pub open spec fn views_bytes(views: Seq<&[u8]>) -> Seq<Seq<u8>> {
    Seq::new(views.len(), |i: int| views[i]@)
}

/// The caller's obligation for a buffer list: the array behind `ptr` covers
/// `len` elements, and each of them covers its bytes.
pub open spec fn covers_buffers(ptr: Option<&[LeanBuffer]>, len: usize) -> bool {
    &&& covers(ptr, len)
    &&& ptr matches Some(array) ==> forall|i: int| 0 <= i < len ==> (#[trigger] array@[i]).wf()
}

/// Element `i` of `buffers` is faulty and no element before it is.
pub open spec fn leftmost_faulty(buffers: Seq<LeanBuffer>, i: int) -> bool {
    &&& 0 <= i < buffers.len()
    &&& buffers[i].fault() is Some
    &&& forall|j: int| 0 <= j < i ==> (#[trigger] buffers[j]).fault() is None
}

/// Faults are reported from the left: `first_fault` is the fault of the
/// leftmost faulty element, and there is none where no element is faulty.
pub proof fn lemma_first_fault_is_leftmost(buffers: Seq<LeanBuffer>)
    ensures
        (forall|i: int| 0 <= i < buffers.len() ==> (#[trigger] buffers[i]).fault() is None)
            ==> first_fault(buffers) is None,
        forall|i: int| #[trigger]
            leftmost_faulty(buffers, i) ==> first_fault(buffers) == buffers[i].fault(),
    decreases buffers.len(),
{
    if buffers.len() > 0 {
        let init = buffers.drop_last();
        let last = buffers.len() - 1;
        lemma_first_fault_is_leftmost(init);
        assert(forall|i: int| 0 <= i < init.len() ==> init[i] == buffers[i]);
        assert forall|i: int| #[trigger] leftmost_faulty(buffers, i) implies first_fault(buffers)
            == buffers[i].fault() by {
            if i < last {
                assert(leftmost_faulty(init, i));
            } else {
                assert forall|j: int| 0 <= j < init.len() implies (#[trigger] init[j]).fault()
                    is None by {
                    assert(buffers[j].fault() is None);
                }
            }
        }
    }
}

/// Every fault of a buffer list is a null pointer or a length that is not valid.
pub proof fn lemma_buffers_fault_is_boundary(ptr: Option<&[LeanBuffer]>, len: usize)
    ensures
        buffers_fault(ptr, len) matches Some(e) ==> e.is_boundary_fault(),
{
    if len != 0 && ptr is Some {
        lemma_first_fault_is_boundary(ptr.unwrap()@.subrange(0, len as int));
    }
}

proof fn lemma_first_fault_is_boundary(buffers: Seq<LeanBuffer>)
    ensures
        first_fault(buffers) matches Some(e) ==> e.is_boundary_fault(),
    decreases buffers.len(),
{
    if buffers.len() > 0 {
        lemma_first_fault_is_boundary(buffers.drop_last());
    }
}

/// A fault in a prefix of a list is the fault of the whole list.
proof fn lemma_first_fault_of_prefix(buffers: Seq<LeanBuffer>, n: int)
    requires
        0 <= n <= buffers.len(),
        first_fault(buffers.subrange(0, n)) is Some,
    ensures
        first_fault(buffers) == first_fault(buffers.subrange(0, n)),
    decreases buffers.len() - n,
{
    if n == buffers.len() {
        assert(buffers.subrange(0, n) =~= buffers);
    } else {
        let longer = buffers.subrange(0, n + 1);
        assert(longer.drop_last() =~= buffers.subrange(0, n));
        lemma_first_fault_of_prefix(buffers, n + 1);
    }
}

/// The single-buffer check: a view of exactly `len` bytes behind `ptr`, unless
/// `ptr` is null or `len` is zero.
pub fn read_slice<'a>(ptr: Option<&'a [u8]>, len: usize) -> (r: Result<&'a [u8], LeanCryptoError>)
    requires
        covers(ptr, len),
    ensures
        match r {
            Ok(view) => slice_fault(ptr, len) is None && view@ == bytes_behind(ptr, len),
            Err(e) => slice_fault(ptr, len) == Some(e),
        },
{
    match ptr {
        None => Err(LeanCryptoError::NullPointer),
        Some(memory) => {
            if len == 0 {
                Err(LeanCryptoError::InvalidLength)
            } else {
                Ok(&memory[0..len])
            }
        },
    }
}

/// The fixed-length message check: the single-buffer check, then the length
/// against `MESSAGE_LENGTH`; the bytes are copied into a value of that size.
pub fn read_message(ptr: Option<&[u8]>, len: usize) -> (r: Result<
    [u8; MESSAGE_LENGTH],
    LeanCryptoError,
>)
    requires
        covers(ptr, len),
    ensures
        match r {
            Ok(message) => message_fault(ptr, len) is None && message@ == bytes_behind(ptr, len),
            Err(e) => message_fault(ptr, len) == Some(e),
        },
        // Another length is reported as such, whatever the bytes are.
        ptr is Some && len != MESSAGE_LENGTH ==> r matches Err(LeanCryptoError::InvalidLength),
{
    let bytes = read_slice(ptr, len)?;
    if len != MESSAGE_LENGTH {
        return Err(LeanCryptoError::InvalidLength);
    }
    let mut message = [0u8; MESSAGE_LENGTH];
    let mut i: usize = 0;
    while i < MESSAGE_LENGTH
        invariant
            i <= MESSAGE_LENGTH,
            bytes@.len() == MESSAGE_LENGTH,
            forall|j: int| 0 <= j < i ==> message@[j] == bytes@[j],
        decreases MESSAGE_LENGTH - i,
    {
        message[i] = bytes[i];
        i += 1;
    }
    assert(message@ =~= bytes@);
    Ok(message)
}

/// The buffer-list check: the views that the `len` elements behind `ptr`
/// describe, in order, unless the list has a fault. Elements are checked from
/// the left, and the first fault found is returned.
pub fn read_buffers<'a>(ptr: Option<&'a [LeanBuffer<'a>]>, len: usize) -> (r: Result<
    Vec<&'a [u8]>,
    LeanCryptoError,
>)
    requires
        covers_buffers(ptr, len),
    ensures
        match r {
            Ok(views) => {
                &&& buffers_fault(ptr, len) is None
                &&& views@.len() == len
                &&& views_bytes(views@) == buffers_bytes(ptr, len)
            },
            Err(e) => buffers_fault(ptr, len) == Some(e),
        },
{
    if len == 0 {
        let views: Vec<&'a [u8]> = Vec::new();
        assert(views_bytes(views@) =~= buffers_bytes(ptr, len));
        return Ok(views);
    }
    let buffers = match ptr {
        None => {
            return Err(LeanCryptoError::NullPointer);
        },
        Some(array) => array,
    };
    let ghost listed = buffers@.subrange(0, len as int);
    let mut out: Vec<&'a [u8]> = Vec::with_capacity(len);
    let mut i: usize = 0;
    while i < len
        invariant
            i <= len <= buffers@.len(),
            ptr == Some(buffers),
            covers_buffers(ptr, len),
            listed == buffers@.subrange(0, len as int),
            first_fault(listed.subrange(0, i as int)) is None,
            out@.len() == i,
            forall|j: int| 0 <= j < i ==> (#[trigger] out@[j])@ == buffers@[j].bytes(),
        decreases len - i,
    {
        let buffer = &buffers[i];
        assert(buffer.wf());
        proof {
            assert(listed.subrange(0, i + 1).drop_last() =~= listed.subrange(0, i as int));
            assert(listed.subrange(0, i + 1).last() == buffers@[i as int]);
        }
        match read_slice(buffer.ptr, buffer.len) {
            Ok(view) => {
                out.push(view);
            },
            Err(e) => {
                proof {
                    lemma_first_fault_of_prefix(listed, i + 1);
                }
                return Err(e);
            },
        }
        i += 1;
    }
    assert(listed.subrange(0, len as int) =~= listed);
    assert(views_bytes(out@) =~= buffers_bytes(ptr, len));
    Ok(out)
}

} // verus!

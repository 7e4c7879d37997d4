//! Zeroed allocation from the heap.
//!
//! The heap path owes nothing to a caller-supplied buffer: it asks an
//! underlying zeroing allocator for a block of the layout's size and wraps
//! what comes back. [`alloc_zeroed_bytes_with`] is the whole decision,
//! verified for every allocator outcome, the failure included; the typed
//! entry points build the zero value directly and so never fail.

use crate::error::{AllocError, AllocErrorKind};
use crate::layout::Layout;
use crate::zeroed::AllocZeroed;
use vstd::prelude::*;

verus! {

/// A zeroed block carved from the heap: the layout it was requested for,
/// and its bytes. A zero-sized layout owns no bytes at all.
#[derive(Debug)]
pub struct HeapAlloc {
    /// The layout the block was requested for.
    pub layout: Layout,
    /// The block itself, one byte per byte of the layout's size.
    pub bytes: Vec<u8>,
}

/// A successful heap allocation: a block of exactly the layout's size,
/// every byte zero.
pub open spec fn heap_alloc_ok(layout: Layout, h: HeapAlloc) -> bool {
    &&& h.layout == layout
    &&& h.bytes@.len() == layout.spec_size()
    &&& forall|i: int| 0 <= i < h.bytes@.len() ==> #[trigger] h.bytes@[i] == 0u8
}

/// A zeroed block of `n` bytes, as the built-in allocator grants it.
pub fn zeroed_block(n: usize) -> (v: Vec<u8>)
    ensures
        v@.len() == n,
        forall|i: int| 0 <= i < n ==> #[trigger] v@[i] == 0u8,
{
    let mut v: Vec<u8> = Vec::new();
    let mut i: usize = 0;
    while i < n
        invariant
            i <= n,
            v@.len() == i,
            forall|j: int| 0 <= j < i ==> #[trigger] v@[j] == 0u8,
        decreases n - i,
    {
        v.push(0);
        i = i + 1;
    }
    v
}

/// What the heap path returns for each outcome of the underlying zeroing
/// allocator: `grant` holds the zeroed block the allocator returned, or
/// `None` where it reported failure. A zero-sized layout succeeds without
/// consulting the allocator; a failed grant becomes an out-of-memory error
/// carrying exactly the layout's size and alignment.
pub fn alloc_zeroed_bytes_with(layout: Layout, grant: Option<Vec<u8>>) -> (r: Result<
    HeapAlloc,
    AllocError,
>)
    requires
        layout.wf(),
        grant matches Some(v) ==> v@.len() == layout.spec_size() && forall|i: int|
            0 <= i < v@.len() ==> #[trigger] v@[i] == 0u8,
    ensures
        r is Ok <==> (layout.spec_size() == 0 || grant is Some),
        r matches Ok(h) ==> heap_alloc_ok(layout, h),
        r matches Err(e) ==> e.spec_kind() == (AllocErrorKind::OutOfMemory {
            required: layout.spec_size(),
            alignment: layout.spec_align(),
        }) && e.is_bare(),
{
    if layout.size() == 0 {
        return Ok(HeapAlloc { layout, bytes: Vec::new() });
    }
    match grant {
        Some(v) => Ok(HeapAlloc { layout, bytes: v }),
        None => Err(
            AllocError::builder(
                AllocErrorKind::OutOfMemory {
                    required: layout.size(),
                    alignment: layout.align(),
                },
            ).build(),
        ),
    }
}

/// Allocates a zeroed block for `layout` from the heap.
pub fn alloc_zeroed_bytes(layout: Layout) -> (r: Result<HeapAlloc, AllocError>)
    requires
        layout.wf(),
    ensures
        r matches Ok(h) && heap_alloc_ok(layout, h),
{
    let block = zeroed_block(layout.size());
    alloc_zeroed_bytes_with(layout, Some(block))
}

/// Heap allocation of the zero value of a marked type.
pub trait AllocZeroedBoxed: AllocZeroed {
    /// Heap-allocates the zero value of `Self`, boxed. Building the value
    /// directly, it always succeeds; the out-of-memory report for an
    /// allocator that can fail stands in [`alloc_zeroed_bytes_with`].
    fn alloc_zeroed_boxed() -> (r: Result<Box<Self>, AllocError>)
        ensures
            r is Ok,
    {
        Ok(Box::new(Self::zero_value()))
    }
}

impl<T: AllocZeroed> AllocZeroedBoxed for T {
}

/// Heap-allocates the zero value of `T`, boxed, as
/// [`AllocZeroedBoxed::alloc_zeroed_boxed`] does.
pub fn alloc_zeroed<T: AllocZeroed>() -> (r: Result<Box<T>, AllocError>)
    ensures
        r is Ok,
{
    Ok(Box::new(T::zero_value()))
}

} // verus!

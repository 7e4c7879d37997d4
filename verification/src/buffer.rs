//! Carving zero-filled regions out of a caller-supplied byte buffer.
//!
//! A [`Buffer`] models one contiguous byte region: the address of its first
//! byte and the bytes it holds. The allocation methods compute the padding
//! that alignment demands, check capacity, zero exactly the allocated
//! region, and either leave the buffer whole or split the unused tail off
//! as a new buffer for further sequential allocation. A failing call
//! leaves the buffer untouched and reports a structured [`AllocError`].

use crate::error::{AllocError, AllocErrorKind};
use crate::layout::Layout;
use vstd::arithmetic::power2::is_pow2;
use vstd::prelude::*;

verus! {

/// A contiguous byte region: the address of its first byte, and its bytes.
#[derive(Debug)]
pub struct Buffer {
    addr: usize,
    bytes: Vec<u8>,
}

/// A slice of `count` zeroed elements of some layout, carved from a buffer:
/// where it starts, what its elements are, and how many there are.
#[derive(Debug, Clone, Copy, PartialEq, Eq, Structural)]
pub struct SliceAlloc {
    /// The address of the first element; a dangling sentinel (the alignment
    /// itself) for zero-sized layouts.
    pub addr: usize,
    /// The layout of each element.
    pub layout: Layout,
    /// How many elements the slice holds.
    pub count: usize,
}

/// A single zeroed value of some layout, carved from a buffer.
#[derive(Debug, Clone, Copy, PartialEq, Eq, Structural)]
pub struct ValueAlloc {
    /// The address of the value; a dangling sentinel (the alignment itself)
    /// for zero-sized layouts.
    pub addr: usize,
    /// The layout of the value.
    pub layout: Layout,
}

impl SliceAlloc {
    /// The bytes the slice occupies.
    pub open spec fn byte_len(self) -> int {
        self.layout.spec_size() * self.count
    }
}

impl View for Buffer {
    type V = Seq<u8>;

    closed spec fn view(&self) -> Seq<u8> {
        self.bytes@
    }
}

/// The smallest forward offset that aligns `addr`.
pub open spec fn pad_to(addr: int, align: int) -> int
    recommends
        align >= 1,
{
    if addr % align == 0 {
        0
    } else {
        align - addr % align
    }
}

/// Whether the aligned address still lies in the address space.
pub open spec fn aligned_ok(addr: int, align: int) -> bool {
    addr + pad_to(addr, align) <= usize::MAX
}

/// The bytes left after the alignment padding, saturating at zero.
pub open spec fn avail_after(addr: int, len: int, align: int) -> int {
    if pad_to(addr, align) >= len {
        0
    } else {
        len - pad_to(addr, align)
    }
}

/// `size * count`, clamped into `usize` for error reporting.
pub open spec fn required_report(size: int, count: int) -> int {
    if size * count > usize::MAX {
        usize::MAX as int
    } else {
        size * count
    }
}

/// Why a request for `count` elements from a buffer at `addr` of `len`
/// bytes fails, or `None` when it succeeds. Zero-sized layouts always
/// succeed; otherwise alignment is checked first, then capacity, with a
/// `size * count` beyond `usize` folded into the capacity failure.
pub open spec fn request_failure(addr: int, len: int, size: int, align: int, count: int) -> Option<
    AllocErrorKind,
> {
    if size == 0 {
        None
    } else if !aligned_ok(addr, align) {
        Some(
            AllocErrorKind::AlignmentFailed {
                required_alignment: align as usize,
                address: addr as usize,
            },
        )
    } else if avail_after(addr, len, align) < size * count {
        Some(
            AllocErrorKind::BufferTooSmall {
                required: required_report(size, count) as usize,
                available: avail_after(addr, len, align) as usize,
                alignment: align as usize,
            },
        )
    } else {
        None
    }
}

/// `post` is `pre` with exactly `[lo, hi)` zeroed and all else unchanged.
pub open spec fn zeroed_between(pre: Seq<u8>, post: Seq<u8>, lo: int, hi: int) -> bool {
    &&& post.len() == pre.len()
    &&& forall|i: int|
        0 <= i < post.len() ==> #[trigger] post[i] == (if lo <= i < hi {
            0u8
        } else {
            pre[i]
        })
}

/// A successful in-place allocation: the buffer keeps its address and
/// length, exactly the allocated region is zeroed, and the returned slice
/// starts at the first aligned address (or at the dangling sentinel for a
/// zero-sized layout, with the buffer untouched).
pub open spec fn alloc_in_place_ok(
    pre: Buffer,
    post: Buffer,
    layout: Layout,
    count: usize,
    a: SliceAlloc,
) -> bool {
    let addr = pre.spec_addr() as int;
    let size = layout.spec_size() as int;
    let align = layout.spec_align() as int;
    &&& a.layout == layout
    &&& a.count == count
    &&& post.spec_addr() == pre.spec_addr()
    &&& if size == 0 {
        &&& post@ == pre@
        &&& a.addr == layout.spec_align()
    } else {
        let p = pad_to(addr, align);
        &&& a.addr == addr + p
        &&& zeroed_between(pre@, post@, p, p + size * count)
    }
}

/// A successful splitting allocation: the buffer shrinks to the padding
/// plus the zeroed allocation region, and the unused tail comes back as a
/// buffer of its own, addressed just past the allocation. For a zero-sized
/// layout the whole buffer comes back as the remainder. A `count` of zero
/// whose padding alone exceeds the buffer cuts at the buffer's end.
pub open spec fn alloc_split_ok(
    pre: Buffer,
    post: Buffer,
    layout: Layout,
    count: usize,
    a: SliceAlloc,
    rem: Buffer,
) -> bool {
    let addr = pre.spec_addr() as int;
    let len = pre@.len() as int;
    let size = layout.spec_size() as int;
    let align = layout.spec_align() as int;
    &&& a.layout == layout
    &&& a.count == count
    &&& post.spec_addr() == pre.spec_addr()
    &&& post.wf()
    &&& rem.wf()
    &&& if size == 0 {
        &&& post@.len() == 0
        &&& a.addr == layout.spec_align()
        &&& rem.spec_addr() == pre.spec_addr()
        &&& rem@ == pre@
    } else {
        let p = pad_to(addr, align);
        let tot = size * count;
        let cut = if p + tot > len {
            len
        } else {
            p + tot
        };
        &&& a.addr == addr + p
        &&& post@.len() == cut
        &&& (forall|i: int|
            0 <= i < cut ==> #[trigger] post@[i] == (if p <= i < p + tot {
                0u8
            } else {
                pre@[i]
            }))
        &&& rem.spec_addr() == addr + cut
        &&& rem@ == pre@.subrange(cut, len)
    }
}

/// The whole contract of an in-place slice allocation: failure exactly as
/// [`request_failure`] says, with the buffer unchanged and a bare error;
/// success exactly as [`alloc_in_place_ok`] says.
pub open spec fn slice_in_place_post(
    pre: Buffer,
    post: Buffer,
    layout: Layout,
    count: usize,
    r: Result<SliceAlloc, AllocError>,
) -> bool {
    match request_failure(
        pre.spec_addr() as int,
        pre@.len() as int,
        layout.spec_size() as int,
        layout.spec_align() as int,
        count as int,
    ) {
        Some(k) => {
            &&& r matches Err(e) && e.spec_kind() == k && e.is_bare()
            &&& post == pre
        },
        None => {
            &&& r matches Ok(a) && alloc_in_place_ok(pre, post, layout, count, a)
        },
    }
}

/// The greatest element count that fits after alignment; the representable
/// maximum for a zero-sized layout.
pub open spec fn max_fit_count(addr: int, len: int, size: int, align: int) -> int {
    if size == 0 {
        usize::MAX as int
    } else {
        avail_after(addr, len, align) / size
    }
}

/// The whole contract of a max-fit slice allocation: it fails exactly when
/// not even one element fits, as [`request_failure`] for a single element
/// says; otherwise it zeroes [`max_fit_count`] elements in place.
pub open spec fn slice_max_post(
    pre: Buffer,
    post: Buffer,
    layout: Layout,
    r: Result<SliceAlloc, AllocError>,
) -> bool {
    let addr = pre.spec_addr() as int;
    let len = pre@.len() as int;
    let size = layout.spec_size() as int;
    let align = layout.spec_align() as int;
    match request_failure(addr, len, size, align, 1) {
        Some(k) => {
            &&& r matches Err(e) && e.spec_kind() == k && e.is_bare()
            &&& post == pre
        },
        None => {
            &&& r matches Ok(a) && alloc_in_place_ok(
                pre,
                post,
                layout,
                max_fit_count(addr, len, size, align) as usize,
                a,
            )
        },
    }
}

/// [`slice_in_place_post`] for a single value, with the slice of one
/// element it stands for.
pub open spec fn one_in_place_post(
    pre: Buffer,
    post: Buffer,
    layout: Layout,
    r: Result<ValueAlloc, AllocError>,
) -> bool {
    match r {
        Ok(v) => slice_in_place_post(
            pre,
            post,
            layout,
            1,
            Ok(SliceAlloc { addr: v.addr, layout: v.layout, count: 1 }),
        ),
        Err(e) => slice_in_place_post(pre, post, layout, 1, Err(e)),
    }
}

/// [`slice_split_post`] for a single value, with the slice of one element
/// it stands for.
pub open spec fn one_split_post(
    pre: Buffer,
    post: Buffer,
    layout: Layout,
    r: Result<(ValueAlloc, Buffer), AllocError>,
) -> bool {
    match r {
        Ok((v, rem)) => slice_split_post(
            pre,
            post,
            layout,
            1,
            Ok((SliceAlloc { addr: v.addr, layout: v.layout, count: 1 }, rem)),
        ),
        Err(e) => slice_split_post(pre, post, layout, 1, Err(e)),
    }
}

/// The whole contract of a splitting slice allocation: failure exactly as
/// [`request_failure`] says, with the buffer unchanged and a bare error;
/// success exactly as [`alloc_split_ok`] says.
pub open spec fn slice_split_post(
    pre: Buffer,
    post: Buffer,
    layout: Layout,
    count: usize,
    r: Result<(SliceAlloc, Buffer), AllocError>,
) -> bool {
    match request_failure(
        pre.spec_addr() as int,
        pre@.len() as int,
        layout.spec_size() as int,
        layout.spec_align() as int,
        count as int,
    ) {
        Some(k) => {
            &&& r matches Err(e) && e.spec_kind() == k && e.is_bare()
            &&& post == pre
        },
        None => {
            &&& r matches Ok(p) && alloc_split_ok(pre, post, layout, count, p.0, p.1)
        },
    }
}

impl Buffer {
    pub closed spec fn spec_addr(&self) -> usize {
        self.addr
    }

    /// A buffer is well-formed when it lies entirely in the address space.
    pub open spec fn wf(self) -> bool {
        self.spec_addr() + self@.len() <= usize::MAX
    }

    /// Wraps `bytes` as a buffer starting at `addr`; rejects a region that
    /// would reach past the end of the address space.
    pub fn new(addr: usize, bytes: Vec<u8>) -> (r: Option<Buffer>)
        ensures
            r is Some <==> addr + bytes@.len() <= usize::MAX,
            r matches Some(b) ==> b.spec_addr() == addr && b@ == bytes@ && b.wf(),
    {
        if bytes.len() <= usize::MAX - addr {
            Some(Buffer { addr, bytes })
        } else {
            None
        }
    }

    #[verifier::when_used_as_spec(spec_addr)]
    pub fn addr(&self) -> (a: usize)
        ensures
            a == self.spec_addr(),
    {
        self.addr
    }

    pub fn len(&self) -> (n: usize)
        ensures
            n == self@.len(),
    {
        self.bytes.len()
    }

    /// The bytes the buffer holds.
    pub fn bytes(&self) -> (b: &Vec<u8>)
        ensures
            b@ == self@,
    {
        &self.bytes
    }

    /// Zeroes room for `count` elements of `layout` inside the buffer,
    /// which keeps its address and length, or fails as [`request_failure`]
    /// says with the buffer untouched.
    fn zero_slice_in_place(&mut self, layout: Layout, count: usize) -> (r: Result<
        SliceAlloc,
        AllocError,
    >)
        requires
            old(self).wf(),
            layout.wf(),
        ensures
            final(self).wf(),
            slice_in_place_post(*old(self), *final(self), layout, count, r),
    {
        let size = layout.size();
        let align = layout.align();
        if size == 0 {
            let a = SliceAlloc { addr: align, layout, count };
            return Ok(a);
        }
        proof {
            reveal(is_pow2);
        }
        let r0 = self.addr % align;
        let pad = if r0 == 0 {
            0
        } else {
            align - r0
        };
        if pad > usize::MAX - self.addr {
            return Err(
                AllocError::builder(
                    AllocErrorKind::AlignmentFailed {
                        required_alignment: align,
                        address: self.addr,
                    },
                ).build(),
            );
        }
        let len = self.bytes.len();
        let avail = if pad >= len {
            0
        } else {
            len - pad
        };
        let total = match size.checked_mul(count) {
            Some(t) => t,
            None => {
                return Err(
                    AllocError::builder(
                        AllocErrorKind::BufferTooSmall {
                            required: usize::MAX,
                            available: avail,
                            alignment: align,
                        },
                    ).build(),
                );
            },
        };
        if avail < total {
            return Err(
                AllocError::builder(
                    AllocErrorKind::BufferTooSmall {
                        required: total,
                        available: avail,
                        alignment: align,
                    },
                ).build(),
            );
        }
        let hi = if pad > len {
            len
        } else {
            pad + total
        };
        let ghost pre = *old(self);
        let mut i: usize = if pad > hi {
            hi
        } else {
            pad
        };
        while i < hi
            invariant
                pad <= i || (pad > hi && i == hi),
                i <= hi,
                hi <= pre@.len(),
                self.bytes@.len() == pre@.len(),
                self.addr == pre.spec_addr(),
                forall|j: int|
                    0 <= j < self.bytes@.len() ==> #[trigger] self.bytes@[j] == (if pad <= j < i {
                        0u8
                    } else {
                        pre@[j]
                    }),
            decreases hi - i,
        {
            self.bytes[i] = 0;
            i = i + 1;
        }
        let a = SliceAlloc { addr: self.addr + pad, layout, count };
        Ok(a)
    }

    /// Zeroes room for one value of `layout` inside the buffer, which keeps
    /// its address and length, or fails as [`request_failure`] for a single
    /// element says with the buffer untouched.
    pub fn alloc_zeroed(&mut self, layout: Layout) -> (r: Result<ValueAlloc, AllocError>)
        requires
            old(self).wf(),
            layout.wf(),
        ensures
            final(self).wf(),
            one_in_place_post(*old(self), *final(self), layout, r),
    {
        match self.zero_slice_in_place(layout, 1) {
            Ok(a) => Ok(ValueAlloc { addr: a.addr, layout: a.layout }),
            Err(e) => Err(e),
        }
    }

    /// Carves one zeroed value of `layout` out of the buffer and splits the
    /// unused tail off as the returned remainder, or fails as
    /// [`request_failure`] for a single element says with the buffer
    /// untouched.
    pub fn alloc_zeroed_with_remainder(&mut self, layout: Layout) -> (r: Result<
        (ValueAlloc, Buffer),
        AllocError,
    >)
        requires
            old(self).wf(),
            layout.wf(),
        ensures
            final(self).wf(),
            one_split_post(*old(self), *final(self), layout, r),
    {
        match self.alloc_zeroed_slice_with_remainder(layout, 1) {
            Ok((a, rem)) => Ok((ValueAlloc { addr: a.addr, layout: a.layout }, rem)),
            Err(e) => Err(e),
        }
    }

    /// Zeroes room for as many elements of `layout` as fit after alignment,
    /// in place; fails as [`request_failure`] for a single element says,
    /// with the buffer untouched, when not even one element fits.
    pub fn alloc_zeroed_slice(&mut self, layout: Layout) -> (r: Result<SliceAlloc, AllocError>)
        requires
            old(self).wf(),
            layout.wf(),
        ensures
            final(self).wf(),
            slice_max_post(*old(self), *final(self), layout, r),
    {
        let size = layout.size();
        let align = layout.align();
        if size == 0 {
            return self.zero_slice_in_place(layout, usize::MAX);
        }
        proof {
            reveal(is_pow2);
        }
        let r0 = self.addr % align;
        let pad = if r0 == 0 {
            0
        } else {
            align - r0
        };
        if pad > usize::MAX - self.addr {
            return Err(
                AllocError::builder(
                    AllocErrorKind::AlignmentFailed {
                        required_alignment: align,
                        address: self.addr,
                    },
                ).build(),
            );
        }
        let len = self.bytes.len();
        let avail = if pad >= len {
            0
        } else {
            len - pad
        };
        if avail < size {
            return Err(
                AllocError::builder(
                    AllocErrorKind::BufferTooSmall {
                        required: size,
                        available: avail,
                        alignment: align,
                    },
                ).build(),
            );
        }
        let count = avail / size;
        proof {
            vstd::arithmetic::div_mod::lemma_fundamental_div_mod(avail as int, size as int);
            vstd::arithmetic::div_mod::lemma_mod_bound(avail as int, size as int);
        }
        let r = self.zero_slice_in_place(layout, count);
        match r {
            Ok(a) => Ok(a),
            Err(e) => {
                // a count of available / size always fits, so this arm is dead
                proof {
                    assert(false);
                }
                Err(e)
            },
        }
    }

    /// Carves `count` zeroed elements of `layout` out of the buffer and
    /// splits the unused tail off as the returned remainder, or fails as
    /// [`request_failure`] says with the buffer untouched.
    pub fn alloc_zeroed_slice_with_remainder(&mut self, layout: Layout, count: usize) -> (r: Result<
        (SliceAlloc, Buffer),
        AllocError,
    >)
        requires
            old(self).wf(),
            layout.wf(),
        ensures
            final(self).wf(),
            slice_split_post(*old(self), *final(self), layout, count, r),
    {
        let size = layout.size();
        let align = layout.align();
        if size == 0 {
            let tail = self.bytes.split_off(0);
            proof {
                assert(old(self)@.subrange(0, old(self)@.len() as int) =~= old(self)@);
            }
            let rem = Buffer { addr: self.addr, bytes: tail };
            let a = SliceAlloc { addr: align, layout, count };
            return Ok((a, rem));
        }
        proof {
            reveal(is_pow2);
        }
        let r0 = self.addr % align;
        let pad = if r0 == 0 {
            0
        } else {
            align - r0
        };
        if pad > usize::MAX - self.addr {
            return Err(
                AllocError::builder(
                    AllocErrorKind::AlignmentFailed {
                        required_alignment: align,
                        address: self.addr,
                    },
                ).build(),
            );
        }
        let len = self.bytes.len();
        let avail = if pad >= len {
            0
        } else {
            len - pad
        };
        let total = match size.checked_mul(count) {
            Some(t) => t,
            None => {
                return Err(
                    AllocError::builder(
                        AllocErrorKind::BufferTooSmall {
                            required: usize::MAX,
                            available: avail,
                            alignment: align,
                        },
                    ).build(),
                );
            },
        };
        if avail < total {
            return Err(
                AllocError::builder(
                    AllocErrorKind::BufferTooSmall {
                        required: total,
                        available: avail,
                        alignment: align,
                    },
                ).build(),
            );
        }
        let cut = if pad > len {
            len
        } else {
            pad + total
        };
        let ghost pre = *old(self);
        let tail = self.bytes.split_off(cut);
        let rem = Buffer { addr: self.addr + cut, bytes: tail };
        let mut i: usize = if pad > cut {
            cut
        } else {
            pad
        };
        while i < cut
            invariant
                pad <= i || (pad > cut && i == cut),
                i <= cut,
                cut <= pre@.len(),
                self.bytes@.len() == cut,
                self.addr == pre.spec_addr(),
                forall|j: int|
                    0 <= j < cut ==> #[trigger] self.bytes@[j] == (if pad <= j < i {
                        0u8
                    } else {
                        pre@[j]
                    }),
            decreases cut - i,
        {
            self.bytes[i] = 0;
            i = i + 1;
        }
        let a = SliceAlloc { addr: self.addr + pad, layout, count };
        Ok((a, rem))
    }
}

} // verus!

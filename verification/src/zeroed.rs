//! The per-type capability marker and its typed allocation entry points.
//!
//! Implementing [`AllocZeroed`] for a type asserts that the all-zero bit
//! pattern is a valid value of it, by giving that value. The provided
//! methods then carve zeroed room for the type out of a [`Buffer`], with
//! the type's own size and alignment, exactly as the layout-level methods
//! on [`Buffer`] do.

use crate::buffer::{
    alloc_in_place_ok, alloc_split_ok, max_fit_count, request_failure, Buffer, SliceAlloc,
    ValueAlloc,
};
use crate::error::{AllocError, AllocErrorKind};
use crate::layout::Layout;
use vstd::layout::{align_of, size_of};
use vstd::prelude::*;

verus! {

/// Why a request for `count` values of `T` from `pre` fails, if it does.
pub open spec fn typed_request_failure<T>(pre: Buffer, count: int) -> Option<AllocErrorKind> {
    request_failure(
        pre.spec_addr() as int,
        pre@.len() as int,
        size_of::<T>() as int,
        align_of::<T>() as int,
        count,
    )
}

/// The layout value that describes `T`.
pub open spec fn typed_layout_ok<T>(l: Layout) -> bool {
    &&& l.wf()
    &&& l.spec_size() == size_of::<T>()
    &&& l.spec_align() == align_of::<T>()
}

/// Asserts that the all-zero bit pattern is a valid value of `Self`, and
/// allocates such values out of caller-supplied buffers.
pub trait AllocZeroed: Sized {
    /// The value of `Self` whose every byte is zero. Providing it is the
    /// implementor's assertion that such a value exists; nothing here can
    /// check that the returned value really is all zero bits.
    fn zero_value() -> Self;

    /// Zeroes room for one `Self` inside the buffer, which keeps its
    /// address and length, or fails with the buffer untouched.
    fn alloc_zeroed(buf: &mut Buffer) -> (r: Result<ValueAlloc, AllocError>)
        requires
            old(buf).wf(),
        ensures
            final(buf).wf(),
            match typed_request_failure::<Self>(*old(buf), 1) {
                Some(k) => {
                    &&& r matches Err(e) && e.spec_kind() == k && e.is_bare()
                    &&& *final(buf) == *old(buf)
                },
                None => {
                    &&& r matches Ok(v) && typed_layout_ok::<Self>(v.layout) && alloc_in_place_ok(
                        *old(buf),
                        *final(buf),
                        v.layout,
                        1,
                        (SliceAlloc { addr: v.addr, layout: v.layout, count: 1 }),
                    )
                },
            },
    {
        let layout = Layout::of::<Self>();
        buf.alloc_zeroed(layout)
    }

    /// Carves one zeroed `Self` out of the buffer and splits the unused
    /// tail off as the returned remainder, or fails with the buffer
    /// untouched.
    fn alloc_zeroed_with_remainder(buf: &mut Buffer) -> (r: Result<
        (ValueAlloc, Buffer),
        AllocError,
    >)
        requires
            old(buf).wf(),
        ensures
            final(buf).wf(),
            match typed_request_failure::<Self>(*old(buf), 1) {
                Some(k) => {
                    &&& r matches Err(e) && e.spec_kind() == k && e.is_bare()
                    &&& *final(buf) == *old(buf)
                },
                None => {
                    &&& r matches Ok(p) && typed_layout_ok::<Self>(p.0.layout) && alloc_split_ok(
                        *old(buf),
                        *final(buf),
                        p.0.layout,
                        1,
                        (SliceAlloc { addr: p.0.addr, layout: p.0.layout, count: 1 }),
                        p.1,
                    )
                },
            },
    {
        let layout = Layout::of::<Self>();
        buf.alloc_zeroed_with_remainder(layout)
    }

    /// Zeroes room for as many `Self` as fit after alignment, in place;
    /// fails, with the buffer untouched, when not even one fits.
    fn alloc_zeroed_slice(buf: &mut Buffer) -> (r: Result<SliceAlloc, AllocError>)
        requires
            old(buf).wf(),
        ensures
            final(buf).wf(),
            match typed_request_failure::<Self>(*old(buf), 1) {
                Some(k) => {
                    &&& r matches Err(e) && e.spec_kind() == k && e.is_bare()
                    &&& *final(buf) == *old(buf)
                },
                None => {
                    &&& r matches Ok(a) && typed_layout_ok::<Self>(a.layout) && a.count
                        == max_fit_count(
                        old(buf).spec_addr() as int,
                        old(buf)@.len() as int,
                        size_of::<Self>() as int,
                        align_of::<Self>() as int,
                    ) && alloc_in_place_ok(*old(buf), *final(buf), a.layout, a.count, a)
                },
            },
    {
        let layout = Layout::of::<Self>();
        buf.alloc_zeroed_slice(layout)
    }

    /// Carves `count` zeroed `Self` out of the buffer and splits the
    /// unused tail off as the returned remainder, or fails with the buffer
    /// untouched.
    fn alloc_zeroed_slice_with_remainder(buf: &mut Buffer, count: usize) -> (r: Result<
        (SliceAlloc, Buffer),
        AllocError,
    >)
        requires
            old(buf).wf(),
        ensures
            final(buf).wf(),
            match typed_request_failure::<Self>(*old(buf), count as int) {
                Some(k) => {
                    &&& r matches Err(e) && e.spec_kind() == k && e.is_bare()
                    &&& *final(buf) == *old(buf)
                },
                None => {
                    &&& r matches Ok(p) && typed_layout_ok::<Self>(p.0.layout) && alloc_split_ok(
                        *old(buf),
                        *final(buf),
                        p.0.layout,
                        count,
                        p.0,
                        p.1,
                    )
                },
            },
    {
        let layout = Layout::of::<Self>();
        buf.alloc_zeroed_slice_with_remainder(layout, count)
    }
}

impl AllocZeroed for u8 {
    fn zero_value() -> Self {
        0
    }
}

impl AllocZeroed for u16 {
    fn zero_value() -> Self {
        0
    }
}

impl AllocZeroed for u32 {
    fn zero_value() -> Self {
        0
    }
}

impl AllocZeroed for u64 {
    fn zero_value() -> Self {
        0
    }
}

impl AllocZeroed for usize {
    fn zero_value() -> Self {
        0
    }
}

impl AllocZeroed for i8 {
    fn zero_value() -> Self {
        0
    }
}

impl AllocZeroed for i16 {
    fn zero_value() -> Self {
        0
    }
}

impl AllocZeroed for i32 {
    fn zero_value() -> Self {
        0
    }
}

impl AllocZeroed for i64 {
    fn zero_value() -> Self {
        0
    }
}

impl AllocZeroed for isize {
    fn zero_value() -> Self {
        0
    }
}

impl AllocZeroed for bool {
    fn zero_value() -> Self {
        false
    }
}

impl<T: AllocZeroed + Copy, const N: usize> AllocZeroed for [T; N] {
    fn zero_value() -> Self {
        [T::zero_value();N]
    }
}

impl<A: AllocZeroed> AllocZeroed for (A,) {
    fn zero_value() -> Self {
        (A::zero_value(),)
    }
}

impl<A: AllocZeroed, B: AllocZeroed> AllocZeroed for (A, B) {
    fn zero_value() -> Self {
        (A::zero_value(), B::zero_value())
    }
}

impl<A: AllocZeroed, B: AllocZeroed, C: AllocZeroed> AllocZeroed for (A, B, C) {
    fn zero_value() -> Self {
        (A::zero_value(), B::zero_value(), C::zero_value())
    }
}

impl<A: AllocZeroed, B: AllocZeroed, C: AllocZeroed, D: AllocZeroed> AllocZeroed for (A, B, C, D) {
    fn zero_value() -> Self {
        (A::zero_value(), B::zero_value(), C::zero_value(), D::zero_value())
    }
}

impl<A: AllocZeroed, B: AllocZeroed, C: AllocZeroed, D: AllocZeroed, E: AllocZeroed> AllocZeroed for (
    A,
    B,
    C,
    D,
    E,
) {
    fn zero_value() -> Self {
        (A::zero_value(), B::zero_value(), C::zero_value(), D::zero_value(), E::zero_value())
    }
}

impl<
    A: AllocZeroed,
    B: AllocZeroed,
    C: AllocZeroed,
    D: AllocZeroed,
    E: AllocZeroed,
    F: AllocZeroed,
> AllocZeroed for (A, B, C, D, E, F) {
    fn zero_value() -> Self {
        (
            A::zero_value(),
            B::zero_value(),
            C::zero_value(),
            D::zero_value(),
            E::zero_value(),
            F::zero_value(),
        )
    }
}

impl<
    A: AllocZeroed,
    B: AllocZeroed,
    C: AllocZeroed,
    D: AllocZeroed,
    E: AllocZeroed,
    F: AllocZeroed,
    G: AllocZeroed,
> AllocZeroed for (A, B, C, D, E, F, G) {
    fn zero_value() -> Self {
        (
            A::zero_value(),
            B::zero_value(),
            C::zero_value(),
            D::zero_value(),
            E::zero_value(),
            F::zero_value(),
            G::zero_value(),
        )
    }
}

impl<
    A: AllocZeroed,
    B: AllocZeroed,
    C: AllocZeroed,
    D: AllocZeroed,
    E: AllocZeroed,
    F: AllocZeroed,
    G: AllocZeroed,
    H: AllocZeroed,
> AllocZeroed for (A, B, C, D, E, F, G, H) {
    fn zero_value() -> Self {
        (
            A::zero_value(),
            B::zero_value(),
            C::zero_value(),
            D::zero_value(),
            E::zero_value(),
            F::zero_value(),
            G::zero_value(),
            H::zero_value(),
        )
    }
}

} // verus!

//! The laws the buffer allocator obeys, proved from its contracts alone.

use crate::buffer::{
    alloc_in_place_ok, alloc_split_ok, max_fit_count, pad_to, request_failure, slice_split_post,
    Buffer, SliceAlloc,
};
use crate::error::AllocError;
use crate::layout::Layout;
use vstd::arithmetic::div_mod::{
    lemma_fundamental_div_mod, lemma_fundamental_div_mod_converse, lemma_mod_bound,
    lemma_mod_self_0,
};
use vstd::arithmetic::mul::lemma_mul_left_inequality;
use vstd::arithmetic::power2::is_pow2;
use vstd::prelude::*;

verus! {

/// The addresses `[start, start + len)`.
pub open spec fn region(start: int, len: int) -> Set<int> {
    Set::new(|i: int| start <= i < start + len)
}

/// Whether a request for `count` elements of `layout` from `buf` succeeds.
pub open spec fn slice_request_ok(buf: Buffer, layout: Layout, count: usize) -> bool {
    request_failure(
        buf.spec_addr() as int,
        buf@.len() as int,
        layout.spec_size() as int,
        layout.spec_align() as int,
        count as int,
    ) is None
}

/// The padding [`pad_to`] is the smallest offset that aligns `addr`: it
/// lies below `align`, the padded address is aligned, and no smaller
/// offset aligns it.
pub proof fn lemma_pad_to_smallest(addr: int, align: int)
    requires
        addr >= 0,
        align >= 1,
    ensures
        0 <= pad_to(addr, align) < align,
        (addr + pad_to(addr, align)) % align == 0,
        forall|o: int| 0 <= o < pad_to(addr, align) ==> #[trigger] ((addr + o) % align) != 0,
{
    let r = addr % align;
    let q = addr / align;
    lemma_mod_bound(addr, align);
    lemma_fundamental_div_mod(addr, align);
    if r == 0 {
        assert(pad_to(addr, align) == 0);
    } else {
        let p = align - r;
        assert(addr + p == (q + 1) * align + 0) by {
            assert(addr == align * q + r);
            assert((q + 1) * align == q * align + align) by (nonlinear_arith);
            assert(align * q == q * align) by (nonlinear_arith);
        }
        lemma_fundamental_div_mod_converse(addr + p, align, q + 1, 0);
        assert forall|o: int| 0 <= o < p implies #[trigger] ((addr + o) % align) != 0 by {
            assert(addr + o == q * align + (r + o)) by {
                assert(addr == align * q + r);
                assert(align * q == q * align) by (nonlinear_arith);
            }
            lemma_fundamental_div_mod_converse(addr + o, align, q, r + o);
        }
    }
}

/// Alignment guarantee for an in-place allocation: the returned start
/// address is divisible by the layout's alignment (a zero-sized layout's
/// sentinel included).
pub proof fn lemma_in_place_alloc_aligned(
    pre: Buffer,
    post: Buffer,
    layout: Layout,
    count: usize,
    a: SliceAlloc,
)
    requires
        layout.wf(),
        alloc_in_place_ok(pre, post, layout, count, a),
    ensures
        a.addr as int % layout.spec_align() as int == 0,
{
    let align = layout.spec_align() as int;
    reveal(is_pow2);
    if layout.spec_size() == 0 {
        lemma_mod_self_0(align);
    } else {
        lemma_pad_to_smallest(pre.spec_addr() as int, align);
    }
}

/// Alignment guarantee for a splitting allocation, as
/// [`lemma_in_place_alloc_aligned`] states it.
pub proof fn lemma_split_alloc_aligned(
    pre: Buffer,
    post: Buffer,
    layout: Layout,
    count: usize,
    a: SliceAlloc,
    rem: Buffer,
)
    requires
        layout.wf(),
        alloc_split_ok(pre, post, layout, count, a, rem),
    ensures
        a.addr as int % layout.spec_align() as int == 0,
{
    let align = layout.spec_align() as int;
    reveal(is_pow2);
    if layout.spec_size() == 0 {
        lemma_mod_self_0(align);
    } else {
        lemma_pad_to_smallest(pre.spec_addr() as int, align);
    }
}

/// Zero-fill totality for an in-place allocation: within the buffer,
/// every byte of the allocated region reads as zero.
pub proof fn lemma_in_place_alloc_zero_filled(
    pre: Buffer,
    post: Buffer,
    layout: Layout,
    count: usize,
    a: SliceAlloc,
)
    requires
        alloc_in_place_ok(pre, post, layout, count, a),
    ensures
        forall|i: int|
            pad_to(pre.spec_addr() as int, layout.spec_align() as int) <= i < pad_to(
                pre.spec_addr() as int,
                layout.spec_align() as int,
            ) + a.byte_len() && 0 <= i < post@.len() ==> #[trigger] post@[i] == 0u8,
{
}

/// Zero-fill totality for a splitting allocation: every byte of the
/// allocated region, which the shrunken buffer retains past its padding,
/// reads as zero.
pub proof fn lemma_split_alloc_zero_filled(
    pre: Buffer,
    post: Buffer,
    layout: Layout,
    count: usize,
    a: SliceAlloc,
    rem: Buffer,
)
    requires
        layout.wf(),
        alloc_split_ok(pre, post, layout, count, a, rem),
    ensures
        forall|i: int|
            pad_to(pre.spec_addr() as int, layout.spec_align() as int) <= i < post@.len()
                ==> #[trigger] post@[i] == 0u8,
{
    reveal(is_pow2);
    if layout.spec_size() != 0 {
        lemma_pad_to_smallest(pre.spec_addr() as int, layout.spec_align() as int);
    }
}

/// Disjointness: after a splitting allocation whose padded request lies
/// inside the buffer, the padding, the allocated region and the remainder
/// are pairwise disjoint address ranges that together reconstruct exactly
/// the original buffer's range.
pub proof fn lemma_split_partitions(
    pre: Buffer,
    post: Buffer,
    layout: Layout,
    count: usize,
    a: SliceAlloc,
    rem: Buffer,
)
    requires
        pre.wf(),
        layout.wf(),
        alloc_split_ok(pre, post, layout, count, a, rem),
        layout.spec_size() == 0 || pad_to(pre.spec_addr() as int, layout.spec_align() as int)
            + layout.spec_size() * count <= pre@.len(),
    ensures
        ({
            let addr = pre.spec_addr() as int;
            let len = pre@.len() as int;
            let size = layout.spec_size() as int;
            let p = if size == 0 {
                0int
            } else {
                pad_to(addr, layout.spec_align() as int)
            };
            let tot = size * count;
            let pad_region = region(addr, p);
            let alloc_region = region(addr + p, tot);
            let rem_region = region(rem.spec_addr() as int, rem@.len() as int);
            &&& pad_region.disjoint(alloc_region)
            &&& alloc_region.disjoint(rem_region)
            &&& pad_region.disjoint(rem_region)
            &&& pad_region + alloc_region + rem_region == region(addr, len)
        }),
{
    let addr = pre.spec_addr() as int;
    let len = pre@.len() as int;
    let size = layout.spec_size() as int;
    let align = layout.spec_align() as int;
    let p = if size == 0 {
        0int
    } else {
        pad_to(addr, align)
    };
    let tot = size * count;
    if size == 0 {
        assert(tot == 0) by (nonlinear_arith)
            requires
                size == 0,
                tot == size * count,
        ;
    } else {
        reveal(is_pow2);
        lemma_pad_to_smallest(addr, align);
        assert(tot >= 0) by (nonlinear_arith)
            requires
                size > 0,
                count >= 0,
                tot == size * count,
        ;
        assert(rem.spec_addr() == addr + p + tot);
        assert(rem@.len() == len - (p + tot));
    }
    assert(region(addr, p) + region(addr + p, tot) + region(
        rem.spec_addr() as int,
        rem@.len() as int,
    ) =~= region(addr, len));
}

/// Monotonic capacity: if `count` elements fit, so do any fewer, from the
/// same buffer state.
pub proof fn lemma_success_monotonic(buf: Buffer, layout: Layout, count: usize, fewer: usize)
    requires
        fewer <= count,
        slice_request_ok(buf, layout, count),
    ensures
        slice_request_ok(buf, layout, fewer),
{
    let size = layout.spec_size() as int;
    if size != 0 {
        lemma_mul_left_inequality(size, fewer as int, count as int);
    }
}

/// Idempotent failure: a failing call leaves the buffer exactly as it
/// was, and any two outcomes of the same failing request carry the same
/// error kind, with the same numbers, and no context.
pub proof fn lemma_failure_deterministic(
    pre: Buffer,
    layout: Layout,
    count: usize,
    post1: Buffer,
    r1: Result<(SliceAlloc, Buffer), AllocError>,
    post2: Buffer,
    r2: Result<(SliceAlloc, Buffer), AllocError>,
)
    requires
        slice_split_post(pre, post1, layout, count, r1),
        slice_split_post(pre, post2, layout, count, r2),
        r1 is Err,
    ensures
        post1 == pre,
        post2 == pre,
        r2 is Err,
        r1 matches Err(e1) ==> r2 matches Err(e2) ==> e1.spec_kind() == e2.spec_kind()
            && e1.is_bare() && e2.is_bare(),
{
}

/// Zero-sized-type universality: a zero-sized layout succeeds for every
/// count from every buffer, the empty one included, and its max-fit count
/// is the representable maximum.
pub proof fn lemma_zero_sized_unbounded(buf: Buffer, layout: Layout, count: usize)
    requires
        layout.spec_size() == 0,
    ensures
        slice_request_ok(buf, layout, count),
        max_fit_count(
            buf.spec_addr() as int,
            buf@.len() as int,
            layout.spec_size() as int,
            layout.spec_align() as int,
        ) == usize::MAX,
{
}

} // verus!

//! The layout of a type: its size in bytes and its required alignment.

use crate::error::{AllocError, AllocErrorKind};
use vstd::arithmetic::power2::is_pow2;
use vstd::layout::{align_of, layout_for_type_is_valid, size_of, valid_layout};
use vstd::prelude::*;

verus! {

/// A size/alignment pair, held valid by construction: the alignment is a
/// nonzero power of two and the size, rounded up to it, stays in `isize`.
#[derive(Debug, Clone, Copy, PartialEq, Eq, Structural)]
pub struct Layout {
    size: usize,
    align: usize,
}

impl Layout {
    /// The validity that every constructed `Layout` carries.
    pub open spec fn wf(self) -> bool {
        valid_layout(self.spec_size(), self.spec_align())
    }

    pub closed spec fn spec_size(&self) -> usize {
        self.size
    }

    pub closed spec fn spec_align(&self) -> usize {
        self.align
    }

    #[verifier::when_used_as_spec(spec_size)]
    pub fn size(&self) -> (s: usize)
        ensures
            s == self.spec_size(),
    {
        self.size
    }

    #[verifier::when_used_as_spec(spec_align)]
    pub fn align(&self) -> (a: usize)
        ensures
            a == self.spec_align(),
    {
        self.align
    }

    /// Builds the layout with the given size and alignment; rejects, with an
    /// invalid-layout error, the pairs that no type of the host can have.
    pub fn from_size_align(size: usize, align: usize) -> (r: Result<Layout, AllocError>)
        ensures
            r is Ok <==> valid_layout(size, align),
            r matches Ok(l) ==> l.spec_size() == size && l.spec_align() == align && l.wf(),
            r matches Err(e) ==> e.spec_kind() == (AllocErrorKind::InvalidLayout {
                size,
                alignment: align,
            }) && e.is_bare(),
    {
        let pow2 = is_pow2_check(align);
        let max = isize::MAX as usize;
        if !pow2 {
            return Err(
                AllocError::builder(AllocErrorKind::InvalidLayout { size, alignment: align }).build(),
            );
        }
        proof {
            reveal(is_pow2);
            assert((max as int) % (align as int) <= max as int) by (nonlinear_arith)
                requires
                    align as int >= 1,
                    max as int >= 0,
            ;
        }
        if size <= max - (max % align) {
            Ok(Layout { size, align })
        } else {
            Err(AllocError::builder(AllocErrorKind::InvalidLayout { size, alignment: align }).build())
        }
    }

    /// The layout of `T`, as the compiler lays it out.
    pub fn of<T>() -> (l: Layout)
        ensures
            l.wf(),
            l.spec_size() == size_of::<T>(),
            l.spec_align() == align_of::<T>(),
    {
        layout_for_type_is_valid::<T>();
        Layout { size: core::mem::size_of::<T>(), align: core::mem::align_of::<T>() }
    }
}

/// Decides whether `a` is a power of two.
fn is_pow2_check(a: usize) -> (r: bool)
    ensures
        r == is_pow2(a as int),
{
    if a == 0 {
        proof {
            reveal(is_pow2);
        }
        return false;
    }
    let mut x: usize = a;
    while x % 2 == 0
        invariant
            x >= 1,
            is_pow2(a as int) == is_pow2(x as int),
        decreases x,
    {
        proof {
            reveal(is_pow2);
            assert(x >= 2);
            assert(is_pow2(x as int) == is_pow2(x as int / 2));
        }
        x = x / 2;
    }
    proof {
        reveal(is_pow2);
        if x != 1 {
            assert(!is_pow2(x as int));
        }
    }
    x == 1
}

} // verus!

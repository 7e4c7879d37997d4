//! Zero-initialized allocation with verified size, alignment and
//! capacity handling.
//!
//! The crate carves zero-filled values and slices out of caller-supplied
//! byte buffers, or hands out zeroed blocks from the heap, reporting every
//! failure as a structured [`AllocError`] instead of panicking.

pub mod buffer;
pub mod error;
pub mod heap;
pub mod laws;
pub mod layout;
pub mod text;
pub mod zeroed;

pub use buffer::{Buffer, SliceAlloc, ValueAlloc};
pub use error::{AllocError, AllocErrorBuilder, AllocErrorKind};
pub use heap::{alloc_zeroed, alloc_zeroed_bytes, alloc_zeroed_bytes_with, AllocZeroedBoxed, HeapAlloc};
pub use layout::Layout;
pub use zeroed::AllocZeroed;

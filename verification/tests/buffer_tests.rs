use alloc_zeroed::{AllocErrorKind, AllocZeroed, Buffer, Layout};

/// A buffer of `len` zero bytes starting at an address aligned to 4096.
fn aligned_buffer(len: usize) -> Buffer {
    Buffer::new(4096, vec![0u8; len]).unwrap()
}

#[test]
fn tests_test_exact_size_buffer() {
    // Test with a buffer that's exactly the right size
    let mut exact_buffer = aligned_buffer(core::mem::size_of::<u32>());
    let result = u32::alloc_zeroed(&mut exact_buffer);
    assert!(result.is_ok());
    let value = result.unwrap();
    assert_eq!(value.addr, 4096);
    assert!(exact_buffer.bytes().iter().all(|b| *b == 0));
}

#[test]
fn lib_test_exact_size_buffer() {
    let mut exact_buffer = aligned_buffer(core::mem::size_of::<u32>());
    let result = u32::alloc_zeroed(&mut exact_buffer);
    assert!(result.is_ok());
    assert_eq!(result.unwrap().layout.size(), core::mem::size_of::<u32>());
}

#[test]
fn tests_test_insufficient_memory() {
    // Test with a buffer that's too small
    let mut small_buffer = aligned_buffer(4); // Too small for a u64
    let result = u64::alloc_zeroed(&mut small_buffer);

    // Check that we get the right error kind
    assert!(matches!(
        result.as_ref().map_err(|e| e.kind()),
        Err(AllocErrorKind::BufferTooSmall {
            required: 8,
            available: _,
            alignment: _
        })
    ));

    // Check that the error message contains expected information
    if let Err(e) = result {
        let msg = e.to_string();
        assert!(msg.contains("required 8 bytes"));
        assert!(msg.contains("but only"));
        assert!(msg.contains("bytes available"));
    } else {
        panic!("Expected an error");
    }
}

#[test]
fn lib_test_insufficient_memory() {
    let mut small_buffer = aligned_buffer(4);
    let result = u64::alloc_zeroed(&mut small_buffer);
    assert!(matches!(
        result.as_ref().map_err(|e| e.kind()),
        Err(AllocErrorKind::BufferTooSmall {
            required: 8,
            available: _,
            alignment: _
        })
    ));
}

#[test]
fn tests_test_alignment_requirements() {
    // A sixteen-byte alignment, requested from a start eight past it
    let mut buffer = Buffer::new(4096 + 8, vec![0u8; 64]).unwrap();
    let layout = Layout::from_size_align(16, 16).unwrap();
    let value = buffer.alloc_zeroed(layout).unwrap();

    // Check that the returned address is properly aligned
    assert_eq!(value.addr % 16, 0);
    assert_eq!(value.addr, 4096 + 16);
}

#[test]
fn lib_test_alignment_requirements() {
    let mut buffer = Buffer::new(4096 + 4, vec![0u8; 64]).unwrap();
    let layout = Layout::from_size_align(16, 16).unwrap();
    let value = buffer.alloc_zeroed(layout).unwrap();
    assert_eq!(value.addr % 16, 0);
}

#[test]
fn test_alloc_zeroed_slice_basic() {
    let mut buffer = aligned_buffer(1024);

    // Allocate a slice of u32 values
    let slice = u32::alloc_zeroed_slice(&mut buffer).unwrap();

    // Should be able to fit at least 256 u32s in 1KB (accounting for alignment)
    assert!(slice.count >= 256);

    // All allocated bytes read as zero
    assert!(buffer.bytes().iter().all(|b| *b == 0));
}

#[test]
fn test_alloc_zeroed_slice_alignment() {
    // A buffer with a non-aligned start
    let mut unaligned_buffer = Buffer::new(4096 + 1, vec![0u8; 1023]).unwrap();

    // Should still work and return a properly aligned slice
    let slice = u32::alloc_zeroed_slice(&mut unaligned_buffer).unwrap();

    // Check that the returned slice is properly aligned
    assert_eq!(slice.addr % 4, 0);

    // All values are zero
    assert!(unaligned_buffer.bytes().iter().all(|b| *b == 0));
}

#[test]
fn test_alloc_zeroed_slice_insufficient_space() {
    let mut buffer = aligned_buffer(3); // Too small for even one u32 after alignment

    let result = u32::alloc_zeroed_slice(&mut buffer);
    assert!(result.is_err());

    // Check error type
    if let Err(AllocErrorKind::BufferTooSmall { .. }) = result.map_err(|err| err.kind()) {
        // Expected error
    } else {
        panic!("Expected BufferTooSmall error");
    }
}

#[test]
fn test_alloc_zeroed_slice_zst() {
    let mut buffer = aligned_buffer(0); // Empty buffer

    // ZSTs should work with any buffer, even empty
    #[derive(Debug, PartialEq)]
    struct Zst;

    impl AllocZeroed for Zst {
        fn zero_value() -> Self {
            Zst
        }
    }

    let slice = Zst::alloc_zeroed_slice(&mut buffer).unwrap();

    // Should return maximum possible slice for ZST
    assert_eq!(slice.count, usize::MAX);
    assert_eq!(slice.layout.size(), 0);
}

#[test]
fn test_alloc_zeroed_slice_exact_fit() {
    // Create a buffer that fits exactly N items
    let num_items = 4;
    let required_bytes = num_items * core::mem::size_of::<u32>();
    let mut buffer = Buffer::new(4096, vec![0xFFu8; required_bytes]).unwrap(); // Fill with non-zero

    let slice = u32::alloc_zeroed_slice(&mut buffer).unwrap();

    // Should get exactly the number of items that fit
    assert_eq!(slice.count, num_items);

    // The buffer should be zeroed in the allocated region
    for byte in &buffer.bytes()[..required_bytes] {
        assert_eq!(*byte, 0);
    }
}

#[test]
fn test_alloc_zeroed_slice_partial_fit() {
    // Create a buffer that doesn't fit an exact number of items
    let num_items = 3;
    let required_bytes = num_items * core::mem::size_of::<u32>();
    let mut buffer = Buffer::new(4096, vec![0xFFu8; required_bytes + 2]).unwrap(); // Extra 2 bytes

    let slice = u32::alloc_zeroed_slice(&mut buffer).unwrap();

    // Should only fit the complete items (3), not the partial one
    assert_eq!(slice.count, num_items);

    // The allocated region is zero; the partial tail is untouched
    for byte in &buffer.bytes()[..required_bytes] {
        assert_eq!(*byte, 0);
    }
    assert_eq!(buffer.bytes()[required_bytes], 0xFF);
    assert_eq!(buffer.bytes()[required_bytes + 1], 0xFF);
}

#[test]
fn test_alloc_zeroed_slice_different_types() {
    let mut buffer = aligned_buffer(256);

    // Test with different types
    let u32_slice = u32::alloc_zeroed_slice(&mut buffer).unwrap();
    assert!(u32_slice.count >= 64);

    let u64_slice = u64::alloc_zeroed_slice(&mut buffer).unwrap();
    assert!(u64_slice.count >= 32);

    let u8_slice = u8::alloc_zeroed_slice(&mut buffer).unwrap();
    assert!(u8_slice.count >= 256);
}

#[test]
fn test_alloc_zeroed_slice_zero_length_buffer() {
    let mut buffer = aligned_buffer(0);

    // For non-ZST, should fail with BufferTooSmall
    let result = u32::alloc_zeroed_slice(&mut buffer);
    assert!(result.is_err());

    if let Err(AllocErrorKind::BufferTooSmall { .. }) = result.map_err(|err| err.kind()) {
        // Expected error
    } else {
        panic!("Expected BufferTooSmall error");
    }
}

#[test]
fn test_alloc_zeroed_slice_verify_zeroed() {
    let mut buffer = Buffer::new(4096, vec![0xFFu8; 128]).unwrap(); // Fill with non-zero values

    let slice = u32::alloc_zeroed_slice(&mut buffer).unwrap();

    // The portion of the buffer that was used should be zeroed
    let used_bytes = slice.count * core::mem::size_of::<u32>();
    for byte in &buffer.bytes()[..used_bytes] {
        assert_eq!(*byte, 0);
    }
}

#[test]
fn miri_miri_test_buffer_allocation() {
    // Allocate multiple objects in distinct slices of one 1024-byte region
    let base = 4096;
    let mut first = Buffer::new(base, vec![0u8; 32]).unwrap();
    let int_value = u32::alloc_zeroed(&mut first).unwrap();
    assert_eq!(int_value.addr % 4, 0);
    assert!(first.bytes().iter().all(|b| *b == 0));

    let mut second = Buffer::new(base + 32, vec![0u8; 32]).unwrap();
    let float_layout = Layout::from_size_align(8, 8).unwrap();
    let float_value = second.alloc_zeroed(float_layout).unwrap();
    assert_eq!(float_value.addr % 8, 0);
    assert!(second.bytes().iter().all(|b| *b == 0));
}

use alloc_zeroed::{AllocError, AllocErrorKind};

#[test]
fn tests_test_alloc_error_display() {
    // Test BufferTooSmall without context
    let error = AllocError::builder(AllocErrorKind::BufferTooSmall {
        required: 100,
        available: 50,
        alignment: 8,
    })
    .build();

    let msg = error.to_string();
    assert!(msg.contains("required 100 bytes"));
    assert!(msg.contains("but only 50 bytes available"));
    assert!(msg.contains("8 alignment"));

    // Test OutOfMemory
    let error = AllocError::builder(AllocErrorKind::OutOfMemory {
        required: 1024,
        alignment: 16,
    })
    .build();

    let msg = error.to_string();
    assert!(msg.contains("out of memory"));
    assert!(msg.contains("1024 bytes"));
    assert!(msg.contains("16 alignment"));

    // Test AlignmentFailed
    let error = AllocError::builder(AllocErrorKind::AlignmentFailed {
        required_alignment: 16,
        address: 0x1001,
    })
    .build();

    let msg = error.to_string();
    assert!(msg.contains("could not align address 4097"));
    assert!(msg.contains("required alignment 16"));

    // Test InvalidLayout
    let error = AllocError::builder(AllocErrorKind::InvalidLayout {
        size: 0,
        alignment: 16,
    })
    .build();

    let msg = error.to_string();
    assert!(msg.contains("invalid layout"));
    assert!(msg.contains("size=0"));
    assert!(msg.contains("alignment=16"));
}

#[test]
fn tests_test_alloc_error_debug() {
    // Test that debug output contains the variant name
    let error = AllocError::builder(AllocErrorKind::BufferTooSmall {
        required: 100,
        available: 50,
        alignment: 8,
    })
    .build();

    let debug_output = format!("{:?}", error);
    assert!(debug_output.contains("BufferTooSmall"));
}

#[test]
fn tests_test_alloc_error_builder() {
    // Test that builder sets all fields correctly
    let error = AllocError::builder(AllocErrorKind::BufferTooSmall {
        required: 100,
        available: 50,
        alignment: 8,
    })
    .with_type_label("TestType")
    .with_location("test.rs", 42)
    .with_context("test context")
    .build();

    assert_eq!(error.type_label(), Some("TestType"));
    assert_eq!(error.location(), Some(("test.rs", 42)));
    assert_eq!(error.additional_context(), Some("test context"));
    assert!(matches!(
        error.kind(),
        AllocErrorKind::BufferTooSmall {
            required: 100,
            available: 50,
            alignment: 8
        }
    ));

    // Test that the context appears in the display message
    let msg = error.to_string();
    assert!(msg.contains("TestType"));
    assert!(msg.contains("test.rs:42"));
    assert!(msg.contains("test context"));
}

#[test]
fn tests_test_alloc_error_convenience_methods() {
    // Test convenience methods
    let error = AllocError::buffer_too_small(100, 50, 8)
        .with_type_label("TestType")
        .build();

    assert!(matches!(
        error.kind(),
        AllocErrorKind::BufferTooSmall {
            required: 100,
            available: 50,
            alignment: 8
        }
    ));
    assert_eq!(error.type_label(), Some("TestType"));
}

#[test]
fn tests_test_alloc_error_inspection() {
    // Test inspection methods
    let error = AllocError::builder(AllocErrorKind::BufferTooSmall {
        required: 100,
        available: 50,
        alignment: 8,
    })
    .build();

    assert!(error.is_insufficient_memory());
    assert_eq!(error.required_size(), Some(100));

    let error = AllocError::builder(AllocErrorKind::OutOfMemory {
        required: 1024,
        alignment: 16,
    })
    .build();

    assert!(error.is_insufficient_memory());
    assert_eq!(error.required_size(), Some(1024));

    let error = AllocError::builder(AllocErrorKind::AlignmentFailed {
        required_alignment: 16,
        address: 0x1001,
    })
    .build();

    assert!(!error.is_insufficient_memory());
    assert_eq!(error.required_size(), None);
}

#[test]
fn tests_test_alloc_error_clone() {
    // Test that errors can be cloned
    let error = AllocError::builder(AllocErrorKind::BufferTooSmall {
        required: 100,
        available: 50,
        alignment: 8,
    })
    .build();

    let cloned = error.clone();

    // Check that they have the same kind
    assert!(matches!(
        error.kind(),
        AllocErrorKind::BufferTooSmall {
            required: 100,
            available: 50,
            alignment: 8
        }
    ));
    assert!(matches!(
        cloned.kind(),
        AllocErrorKind::BufferTooSmall {
            required: 100,
            available: 50,
            alignment: 8
        }
    ));

    // Check that display messages are the same
    assert_eq!(error.to_string(), cloned.to_string());
}

#[test]
fn tests_test_alloc_error_macro() {
    // Build with an explicit call-site location
    let error = AllocError::builder(AllocErrorKind::BufferTooSmall {
        required: 100,
        available: 50,
        alignment: 8,
    })
    .with_location("error_tests.rs", 42)
    .with_type_label("TestType")
    .build();

    assert!(matches!(
        error.kind(),
        AllocErrorKind::BufferTooSmall {
            required: 100,
            available: 50,
            alignment: 8
        }
    ));
    assert!(error.location().is_some());
}

#[test]
fn tests_test_alloc_error_suggestions() {
    // Test error suggestions
    let error = AllocError::builder(AllocErrorKind::BufferTooSmall {
        required: 100,
        available: 50,
        alignment: 8,
    })
    .build();

    let suggestion = error.suggestion().unwrap();
    assert!(suggestion.contains("Increase buffer size"));
    assert!(suggestion.contains("50 bytes"));

    let error = AllocError::builder(AllocErrorKind::AlignmentFailed {
        required_alignment: 16,
        address: 0x1001,
    })
    .build();

    let suggestion = error.suggestion().unwrap();
    assert!(suggestion.contains("aligned to 16 bytes"));
}

//! The closed taxonomy of allocation failures, and the structured error
//! record that carries one failure kind together with optional context.

use crate::text::dec_seq;
use crate::text::decimal_string;
use vstd::prelude::*;

verus! {

/// The base message for a failure kind, with its numbers in decimal.
pub open spec fn kind_message(k: AllocErrorKind) -> Seq<char> {
    match k {
        AllocErrorKind::BufferTooSmall { required, available, alignment } => "required "@ + dec_seq(
            required as int,
        ) + " bytes (with "@ + dec_seq(alignment as int) + " alignment) but only "@ + dec_seq(
            available as int,
        ) + " bytes available"@,
        AllocErrorKind::OutOfMemory { required, alignment } => "out of memory: required "@
            + dec_seq(required as int) + " bytes with "@ + dec_seq(alignment as int)
            + " alignment"@,
        AllocErrorKind::AlignmentFailed { required_alignment, address } => "could not align address "@
            + dec_seq(address as int) + " to required alignment "@ + dec_seq(
            required_alignment as int,
        ),
        AllocErrorKind::InvalidLayout { size, alignment } => "invalid layout: size="@ + dec_seq(
            size as int,
        ) + ", alignment="@ + dec_seq(alignment as int),
    }
}

/// Why an allocation failed, with the numbers a caller needs to react.
#[derive(Debug, Clone, Copy, PartialEq, Eq, Structural)]
pub enum AllocErrorKind {
    /// The buffer cannot hold the request after alignment.
    BufferTooSmall { required: usize, available: usize, alignment: usize },
    /// The heap allocator could not satisfy the request.
    OutOfMemory { required: usize, alignment: usize },
    /// No in-range address at or after the buffer start satisfies the alignment.
    AlignmentFailed { required_alignment: usize, address: usize },
    /// A size/alignment pair that no type can have.
    InvalidLayout { size: usize, alignment: usize },
}

/// An allocation failure: a kind plus optional diagnostic context.
#[derive(Debug, Clone, Copy)]
pub struct AllocError {
    kind: AllocErrorKind,
    type_label: Option<&'static str>,
    file: Option<&'static str>,
    line: Option<u32>,
    additional_context: Option<&'static str>,
}

impl AllocError {
    pub closed spec fn spec_kind(&self) -> AllocErrorKind {
        self.kind
    }

    pub closed spec fn spec_type_label(&self) -> Option<&'static str> {
        self.type_label
    }

    pub closed spec fn spec_file(self) -> Option<&'static str> {
        self.file
    }

    pub closed spec fn spec_line(self) -> Option<u32> {
        self.line
    }

    pub closed spec fn spec_additional_context(&self) -> Option<&'static str> {
        self.additional_context
    }

    /// True when the error carries no diagnostic context at all.
    pub open spec fn is_bare(self) -> bool {
        &&& self.spec_type_label() is None
        &&& self.spec_file() is None
        &&& self.spec_line() is None
        &&& self.spec_additional_context() is None
    }

    pub fn builder(kind: AllocErrorKind) -> (b: AllocErrorBuilder)
        ensures
            b.spec_kind() == kind,
            b.is_bare(),
    {
        AllocErrorBuilder::new(kind)
    }

    #[verifier::when_used_as_spec(spec_kind)]
    pub fn kind(&self) -> (k: AllocErrorKind)
        ensures
            k == self.spec_kind(),
    {
        self.kind
    }

    #[verifier::when_used_as_spec(spec_type_label)]
    pub fn type_label(&self) -> (n: Option<&'static str>)
        ensures
            n == self.spec_type_label(),
    {
        self.type_label
    }

    /// The source file and line recorded on the error, when both are present.
    pub fn location(&self) -> (l: Option<(&'static str, u32)>)
        ensures
            l == self.spec_location(),
    {
        match (self.file, self.line) {
            (Some(f), Some(n)) => Some((f, n)),
            _ => None,
        }
    }

    pub open spec fn spec_location(self) -> Option<(&'static str, u32)> {
        match (self.spec_file(), self.spec_line()) {
            (Some(f), Some(n)) => Some((f, n)),
            _ => None,
        }
    }

    #[verifier::when_used_as_spec(spec_additional_context)]
    pub fn additional_context(&self) -> (c: Option<&'static str>)
        ensures
            c == self.spec_additional_context(),
    {
        self.additional_context
    }

    pub fn buffer_too_small(required: usize, available: usize, alignment: usize) -> (b:
        AllocErrorBuilder)
        ensures
            b.spec_kind() == (AllocErrorKind::BufferTooSmall { required, available, alignment }),
            b.is_bare(),
    {
        AllocErrorBuilder::new(AllocErrorKind::BufferTooSmall { required, available, alignment })
    }

    pub fn out_of_memory(required: usize, alignment: usize) -> (b: AllocErrorBuilder)
        ensures
            b.spec_kind() == (AllocErrorKind::OutOfMemory { required, alignment }),
            b.is_bare(),
    {
        AllocErrorBuilder::new(AllocErrorKind::OutOfMemory { required, alignment })
    }

    /// True for the two kinds that report a shortage of memory.
    pub fn is_insufficient_memory(&self) -> (r: bool)
        ensures
            r == (self.spec_kind() is BufferTooSmall || self.spec_kind() is OutOfMemory),
    {
        match self.kind {
            AllocErrorKind::BufferTooSmall { .. } => true,
            AllocErrorKind::OutOfMemory { .. } => true,
            _ => false,
        }
    }

    /// The bytes the failed request needed, for the kinds that record them.
    pub fn required_size(&self) -> (r: Option<usize>)
        ensures
            r == (match self.spec_kind() {
                AllocErrorKind::BufferTooSmall { required, .. } => Some(required),
                AllocErrorKind::OutOfMemory { required, .. } => Some(required),
                _ => None::<usize>,
            }),
    {
        match self.kind {
            AllocErrorKind::BufferTooSmall { required, .. } => Some(required),
            AllocErrorKind::OutOfMemory { required, .. } => Some(required),
            _ => None,
        }
    }
}

/// Renders a kind's base message, as [`kind_message`] states.
#[verifier::rlimit(60)]
fn kind_string(k: AllocErrorKind) -> (s: String)
    ensures
        s@ == kind_message(k),
{
    let mut s = String::new();
    match k {
        AllocErrorKind::BufferTooSmall { required, available, alignment } => {
            s.push_str("required ");
            s.push_str(decimal_string(required).as_str());
            s.push_str(" bytes (with ");
            s.push_str(decimal_string(alignment).as_str());
            s.push_str(" alignment) but only ");
            s.push_str(decimal_string(available).as_str());
            s.push_str(" bytes available");
        },
        AllocErrorKind::OutOfMemory { required, alignment } => {
            s.push_str("out of memory: required ");
            s.push_str(decimal_string(required).as_str());
            s.push_str(" bytes with ");
            s.push_str(decimal_string(alignment).as_str());
            s.push_str(" alignment");
        },
        AllocErrorKind::AlignmentFailed { required_alignment, address } => {
            s.push_str("could not align address ");
            s.push_str(decimal_string(address).as_str());
            s.push_str(" to required alignment ");
            s.push_str(decimal_string(required_alignment).as_str());
        },
        AllocErrorKind::InvalidLayout { size, alignment } => {
            s.push_str("invalid layout: size=");
            s.push_str(decimal_string(size).as_str());
            s.push_str(", alignment=");
            s.push_str(decimal_string(alignment).as_str());
        },
    }
    proof {
        assert(s@ =~= kind_message(k));
    }
    s
}

impl AllocError {
    /// The full message: the kind's base message, then each piece of
    /// context that is present.
    pub open spec fn spec_message(&self) -> Seq<char> {
        kind_message(self.spec_kind()) + (match self.spec_type_label() {
            Some(t) => " (type: "@ + t@ + ")"@,
            None => Seq::<char>::empty(),
        }) + (match self.spec_location() {
            Some((f, l)) => " (at "@ + f@ + ":"@ + dec_seq(l as int) + ")"@,
            None => Seq::<char>::empty(),
        }) + (match self.spec_additional_context() {
            Some(c) => " (context: "@ + c@ + ")"@,
            None => Seq::<char>::empty(),
        })
    }

    /// Renders the error as text, as [`Self::spec_message`] states.
    #[verifier::rlimit(60)]
    pub fn to_string(&self) -> (s: String)
        ensures
            s@ == self.spec_message(),
    {
        let mut s = kind_string(self.kind());
        if let Some(t) = self.type_label {
            s.push_str(" (type: ");
            s.push_str(t);
            s.push_str(")");
        }
        if let Some(f) = self.file {
            if let Some(l) = self.line {
                s.push_str(" (at ");
                s.push_str(f);
                s.push_str(":");
                s.push_str(decimal_string(l as usize).as_str());
                s.push_str(")");
            }
        }
        if let Some(c) = self.additional_context {
            s.push_str(" (context: ");
            s.push_str(c);
            s.push_str(")");
        }
        proof {
            assert(s@ =~= self.spec_message());
        }
        s
    }

    /// What the kind suggests a caller do, where a suggestion exists.
    /// The shortfall saturates at zero where an error was built with more
    /// available than required bytes.
    pub open spec fn spec_suggestion(&self) -> Option<Seq<char>> {
        match self.spec_kind() {
            AllocErrorKind::BufferTooSmall { required, available, .. } => Some(
                "Increase buffer size by at least "@ + dec_seq(
                    if available <= required {
                        required - available
                    } else {
                        0
                    },
                ) + " bytes"@,
            ),
            AllocErrorKind::AlignmentFailed { required_alignment, .. } => Some(
                "Use a buffer aligned to "@ + dec_seq(required_alignment as int) + " bytes"@,
            ),
            _ => None,
        }
    }

    /// A remediation hint derived from the kind's numbers alone.
    pub fn suggestion(&self) -> (r: Option<String>)
        ensures
            r is Some <==> self.spec_suggestion() is Some,
            r matches Some(s) ==> Some(s@) == self.spec_suggestion(),
    {
        match self.kind {
            AllocErrorKind::BufferTooSmall { required, available, .. } => {
                let deficit = if available <= required {
                    required - available
                } else {
                    0
                };
                let mut s = String::new();
                s.push_str("Increase buffer size by at least ");
                s.push_str(decimal_string(deficit).as_str());
                s.push_str(" bytes");
                proof {
                    assert(Some(s@) =~= self.spec_suggestion());
                }
                Some(s)
            },
            AllocErrorKind::AlignmentFailed { required_alignment, .. } => {
                let mut s = String::new();
                s.push_str("Use a buffer aligned to ");
                s.push_str(decimal_string(required_alignment).as_str());
                s.push_str(" bytes");
                proof {
                    assert(Some(s@) =~= self.spec_suggestion());
                }
                Some(s)
            },
            _ => None,
        }
    }
}

/// Builds an [`AllocError`] from a kind, adding context step by step.
#[derive(Debug, Clone, Copy)]
pub struct AllocErrorBuilder {
    kind: AllocErrorKind,
    type_label: Option<&'static str>,
    file: Option<&'static str>,
    line: Option<u32>,
    additional_context: Option<&'static str>,
}

impl AllocErrorBuilder {
    pub closed spec fn spec_kind(&self) -> AllocErrorKind {
        self.kind
    }

    pub closed spec fn spec_type_label(&self) -> Option<&'static str> {
        self.type_label
    }

    pub closed spec fn spec_file(self) -> Option<&'static str> {
        self.file
    }

    pub closed spec fn spec_line(self) -> Option<u32> {
        self.line
    }

    pub closed spec fn spec_additional_context(&self) -> Option<&'static str> {
        self.additional_context
    }

    pub open spec fn is_bare(self) -> bool {
        &&& self.spec_type_label() is None
        &&& self.spec_file() is None
        &&& self.spec_line() is None
        &&& self.spec_additional_context() is None
    }

    pub fn new(kind: AllocErrorKind) -> (b: AllocErrorBuilder)
        ensures
            b.spec_kind() == kind,
            b.is_bare(),
    {
        AllocErrorBuilder { kind, type_label: None, file: None, line: None, additional_context: None }
    }

    pub fn with_type_label(self, type_label: &'static str) -> (b: AllocErrorBuilder)
        ensures
            b.spec_kind() == self.spec_kind(),
            b.spec_type_label() == Some(type_label),
            b.spec_file() == self.spec_file(),
            b.spec_line() == self.spec_line(),
            b.spec_additional_context() == self.spec_additional_context(),
    {
        AllocErrorBuilder { type_label: Some(type_label), ..self }
    }

    pub fn with_location(self, file: &'static str, line: u32) -> (b: AllocErrorBuilder)
        ensures
            b.spec_kind() == self.spec_kind(),
            b.spec_type_label() == self.spec_type_label(),
            b.spec_file() == Some(file),
            b.spec_line() == Some(line),
            b.spec_additional_context() == self.spec_additional_context(),
    {
        AllocErrorBuilder { file: Some(file), line: Some(line), ..self }
    }

    pub fn with_context(self, context: &'static str) -> (b: AllocErrorBuilder)
        ensures
            b.spec_kind() == self.spec_kind(),
            b.spec_type_label() == self.spec_type_label(),
            b.spec_file() == self.spec_file(),
            b.spec_line() == self.spec_line(),
            b.spec_additional_context() == Some(context),
    {
        AllocErrorBuilder { additional_context: Some(context), ..self }
    }

    pub fn build(self) -> (e: AllocError)
        ensures
            e.spec_kind() == self.spec_kind(),
            e.spec_type_label() == self.spec_type_label(),
            e.spec_file() == self.spec_file(),
            e.spec_line() == self.spec_line(),
            e.spec_additional_context() == self.spec_additional_context(),
    {
        AllocError {
            kind: self.kind,
            type_label: self.type_label,
            file: self.file,
            line: self.line,
            additional_context: self.additional_context,
        }
    }
}

} // verus!

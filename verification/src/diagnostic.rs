//! What the generator says when it cannot produce an implementation.

use crate::model::Span;
use vstd::prelude::*;
use vstd::string::StringExecFns;

verus! {

/// Why no implementation was produced.
#[derive(Clone, Copy, Debug, PartialEq, Eq, Structural)]
pub enum DiagnosticKind {
    /// The type is not a record with named fields.
    UnsupportedShape,
    /// A field carries a `key = value` annotation under a key that is not `debug`.
    MalformedAnnotation,
}

/// A message for the user and the place in the source that it is about.
#[derive(Clone, Debug, PartialEq, Eq)]
pub struct Diagnostic {
    pub kind: DiagnosticKind,
    pub message: String,
    pub span: Span,
}

pub struct DiagnosticView {
    pub kind: DiagnosticKind,
    pub message: Seq<char>,
    pub span: Span,
}

impl View for Diagnostic {
    type V = DiagnosticView;

    open spec fn view(&self) -> DiagnosticView {
        DiagnosticView { kind: self.kind, message: self.message@, span: self.span }
    }
}

/// The message for a type of an unsupported shape.
pub open spec fn unsupported_shape_message() -> Seq<char> {
    "must define a record with named fields, not an alternative (variant/enum) type."@
}

/// The message for an annotation under a foreign key.
pub open spec fn malformed_annotation_message() -> Seq<char> {
    "expected `debug = \"...\"`"@
}

/// The diagnostic for a type of an unsupported shape that stands at `span`.
pub open spec fn unsupported_shape(span: Span) -> DiagnosticView {
    DiagnosticView {
        kind: DiagnosticKind::UnsupportedShape,
        message: unsupported_shape_message(),
        span,
    }
}

/// The diagnostic for a malformed annotation that stands at `span`.
pub open spec fn malformed_annotation(span: Span) -> DiagnosticView {
    DiagnosticView {
        kind: DiagnosticKind::MalformedAnnotation,
        message: malformed_annotation_message(),
        span,
    }
}

impl Diagnostic {
    /// Says that the type at `span` is not a record with named fields.
    pub fn unsupported_shape(span: Span) -> (diagnostic: Diagnostic)
        ensures
            diagnostic@ == unsupported_shape(span),
    {
        Diagnostic {
            kind: DiagnosticKind::UnsupportedShape,
            message: String::from_str(
                "must define a record with named fields, not an alternative (variant/enum) type.",
            ),
            span,
        }
    }

    /// Says that the annotation at `span` should have been `debug = "..."`.
    pub fn malformed_annotation(span: Span) -> (diagnostic: Diagnostic)
        ensures
            diagnostic@ == malformed_annotation(span),
    {
        Diagnostic {
            kind: DiagnosticKind::MalformedAnnotation,
            message: String::from_str("expected `debug = \"...\"`"),
            span,
        }
    }
}

} // verus!

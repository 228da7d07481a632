//! A generator of debug-printing implementations for records with named fields.
//!
//! The host hands over a [`TypeDescription`]: the type's name, its shape and its
//! fields, each with the annotations written on it. The generator answers with the
//! source text of an implementation of `std::fmt::Debug` for that type, or with a
//! [`Diagnostic`] that says what is wrong and where.
//!
//! The work is done in three steps. [`get_fields`] checks that the type is a record
//! with named fields. [`get_field_attrs`] reads from the annotations of a field
//! whether it names a format string of its own, as in `#[debug = "{:b}"]`.
//! [`emit::synthesize`] writes the implementation. [`impl_debug`] puts the three
//! together, and [`generate::derive`] gives the answer in the form that the host
//! can put into the program either way.

pub mod diagnostic;
pub mod emit;
pub mod extract;
pub mod generate;
pub mod laws;
pub mod literal;
pub mod model;
pub mod plan;
pub mod reading;
pub mod validate;

pub use crate::diagnostic::{Diagnostic, DiagnosticKind};
pub use crate::extract::{get_field_attrs, Verdict};
pub use crate::generate::{impl_debug, Expansion};
pub use crate::model::{
    Annotation, AnnotationForm, AnnotationValue, FieldDescription, Shape, Span, TypeDescription,
};
pub use crate::plan::{render_plan, PlanEntry, RenderMode};
pub use crate::validate::get_fields;

//! The description of a type as the host supplies it.

use vstd::prelude::*;

verus! {

/// A mark that the host has chosen for a stretch of its source. The generator never
/// looks inside it: it hands the mark back with a diagnostic, so that the host can
/// point at the place.
#[derive(Clone, Copy, Debug, PartialEq, Eq, Structural)]
pub struct Span {
    pub id: usize,
}

/// What kind of type the host has parsed.
#[derive(Clone, Copy, Debug, PartialEq, Eq, Structural)]
pub enum Shape {
    /// A record whose fields have names: `struct S { a: A }`.
    NamedRecord,
    /// A record whose fields have positions only: `struct S(A);`.
    TupleRecord,
    /// A record without fields: `struct S;`.
    UnitRecord,
    /// A type with alternatives: `enum E { .. }`.
    Variant,
    /// An untagged union.
    Union,
}

/// The value of a `key = value` annotation.
#[derive(Clone, Debug, PartialEq, Eq)]
pub enum AnnotationValue {
    /// A text literal, held as the text it denotes.
    Text(String),
    /// A literal of any other kind.
    Other,
}

pub enum AnnotationValueView {
    Text(Seq<char>),
    Other,
}

impl View for AnnotationValue {
    type V = AnnotationValueView;

    open spec fn view(&self) -> AnnotationValueView {
        match self {
            AnnotationValue::Text(text) => AnnotationValueView::Text(text@),
            AnnotationValue::Other => AnnotationValueView::Other,
        }
    }
}

/// The form of one annotation.
#[derive(Clone, Debug, PartialEq, Eq)]
pub enum AnnotationForm {
    /// `key = value`. The key is the first segment of the annotation's path.
    NameValue { key: String, value: AnnotationValue },
    /// Anything else: a bare marker, a list, or what does not parse as either.
    Other,
}

pub enum AnnotationFormView {
    NameValue { key: Seq<char>, value: AnnotationValueView },
    Other,
}

impl View for AnnotationForm {
    type V = AnnotationFormView;

    open spec fn view(&self) -> AnnotationFormView {
        match self {
            AnnotationForm::NameValue { key, value } => AnnotationFormView::NameValue {
                key: key@,
                value: value@,
            },
            AnnotationForm::Other => AnnotationFormView::Other,
        }
    }
}

/// One annotation of a field, with the place where it stands.
#[derive(Clone, Debug, PartialEq, Eq)]
pub struct Annotation {
    pub form: AnnotationForm,
    pub span: Span,
}

pub struct AnnotationView {
    pub form: AnnotationFormView,
    pub span: Span,
}

impl View for Annotation {
    type V = AnnotationView;

    open spec fn view(&self) -> AnnotationView {
        AnnotationView { form: self.form@, span: self.span }
    }
}

/// A field of a record: its name and its annotations, in the order of the source.
#[derive(Clone, Debug, PartialEq, Eq)]
pub struct FieldDescription {
    pub name: String,
    pub annotations: Vec<Annotation>,
}

pub struct FieldView {
    pub name: Seq<char>,
    pub annotations: Seq<AnnotationView>,
}

impl View for FieldDescription {
    type V = FieldView;

    open spec fn view(&self) -> FieldView {
        FieldView {
            name: self.name@,
            annotations: self.annotations@.map_values(|a: Annotation| a@),
        }
    }
}

/// A type as the host has parsed it. The fields count only where the shape is
/// [`Shape::NamedRecord`]; their order is that of the declaration.
#[derive(Clone, Debug, PartialEq, Eq)]
pub struct TypeDescription {
    pub name: String,
    pub span: Span,
    pub shape: Shape,
    pub fields: Vec<FieldDescription>,
}

pub struct TypeView {
    pub name: Seq<char>,
    pub span: Span,
    pub shape: Shape,
    pub fields: Seq<FieldView>,
}

impl View for TypeDescription {
    type V = TypeView;

    open spec fn view(&self) -> TypeView {
        TypeView {
            name: self.name@,
            span: self.span,
            shape: self.shape,
            fields: self.fields@.map_values(|f: FieldDescription| f@),
        }
    }
}

} // verus!

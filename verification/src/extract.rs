//! The format override of a field, read from its annotations.

use crate::diagnostic::{malformed_annotation, Diagnostic, DiagnosticView};
use crate::model::{
    Annotation, AnnotationForm, AnnotationFormView, AnnotationValue, AnnotationValueView,
    AnnotationView, FieldDescription,
};
use vstd::prelude::*;
use vstd::string::StringExecFns;

verus! {

/// The key under which a field names its format string.
pub open spec fn recognized_key() -> Seq<char> {
    "debug"@
}

/// What one annotation means for the scan of its field.
#[derive(Clone, Debug, PartialEq, Eq)]
pub enum Verdict {
    /// `debug = "..."`: the field is rendered through this format string.
    Override(String),
    /// `key = value` under another key: the field is refused.
    Malformed,
    /// The scan goes on to the next annotation.
    NoEffect,
}

pub enum VerdictView {
    Override(Seq<char>),
    Malformed,
    NoEffect,
}

impl View for Verdict {
    type V = VerdictView;

    open spec fn view(&self) -> VerdictView {
        match self {
            Verdict::Override(format) => VerdictView::Override(format@),
            Verdict::Malformed => VerdictView::Malformed,
            Verdict::NoEffect => VerdictView::NoEffect,
        }
    }
}

/// The verdict on an annotation of the given form. Under the key `debug` a text
/// gives the override and any other value is passed over; under any other key a
/// `key = value` annotation is malformed; an annotation of another form has no
/// effect.
pub open spec fn verdict(form: AnnotationFormView) -> VerdictView {
    match form {
        AnnotationFormView::NameValue { key, value } => if key == recognized_key() {
            match value {
                AnnotationValueView::Text(format) => VerdictView::Override(format),
                AnnotationValueView::Other => VerdictView::NoEffect,
            }
        } else {
            VerdictView::Malformed
        },
        AnnotationFormView::Other => VerdictView::NoEffect,
    }
}

/// The outcome of scanning `annotations` from position `start` on: the first
/// annotation whose verdict is not `NoEffect` decides, and where there is none the
/// field has no override.
pub open spec fn scan_from(annotations: Seq<AnnotationView>, start: int) -> Result<
    Option<Seq<char>>,
    DiagnosticView,
>
    decreases annotations.len() - start,
{
    if 0 <= start < annotations.len() {
        match verdict(annotations[start].form) {
            VerdictView::Override(format) => Ok(Some(format)),
            VerdictView::Malformed => Err(malformed_annotation(annotations[start].span)),
            VerdictView::NoEffect => scan_from(annotations, start + 1),
        }
    } else {
        Ok(None)
    }
}

/// The outcome of scanning all of a field's annotations.
pub open spec fn scan(annotations: Seq<AnnotationView>) -> Result<
    Option<Seq<char>>,
    DiagnosticView,
> {
    scan_from(annotations, 0)
}

/// The outcome of a scan as the contracts speak of it.
pub open spec fn outcome_view(outcome: Result<Option<String>, Diagnostic>) -> Result<
    Option<Seq<char>>,
    DiagnosticView,
> {
    match outcome {
        Ok(Some(format)) => Ok(Some(format@)),
        Ok(None) => Ok(None),
        Err(diagnostic) => Err(diagnostic@),
    }
}

impl Annotation {
    /// Judges this annotation alone.
    pub fn verdict(&self) -> (v: Verdict)
        ensures
            v@ == verdict(self@.form),
    {
        match &self.form {
            AnnotationForm::NameValue { key, value } => {
                if *key == String::from_str("debug") {
                    match value {
                        AnnotationValue::Text(format) => Verdict::Override(format.clone()),
                        AnnotationValue::Other => Verdict::NoEffect,
                    }
                } else {
                    Verdict::Malformed
                }
            },
            AnnotationForm::Other => Verdict::NoEffect,
        }
    }
}

/// Reads the format override of `field`. The annotations are taken in order, and
/// the first that is not passed over decides: `debug = "..."` gives its text, a
/// `key = value` under another key gives the diagnostic at that annotation. Where
/// every annotation is passed over the field has no override.
pub fn get_field_attrs(field: &FieldDescription) -> (outcome: Result<Option<String>, Diagnostic>)
    ensures
        outcome_view(outcome) == scan(field@.annotations),
{
    let ghost annotations = field@.annotations;
    let mut i: usize = 0;
    while i < field.annotations.len()
        invariant
            annotations == field@.annotations,
            0 <= i <= field.annotations.len(),
            scan(annotations) == scan_from(annotations, i as int),
        decreases field.annotations.len() - i,
    {
        let annotation = &field.annotations[i];
        assert(annotations[i as int] == annotation@);
        match annotation.verdict() {
            Verdict::Override(format) => {
                return Ok(Some(format));
            },
            Verdict::Malformed => {
                return Err(Diagnostic::malformed_annotation(annotation.span));
            },
            Verdict::NoEffect => {},
        }
        i += 1;
    }
    Ok(None)
}

} // verus!

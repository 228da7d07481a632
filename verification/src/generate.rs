//! The generator: from the description of a type to the text that the host puts
//! into the program.

use crate::diagnostic::{unsupported_shape, Diagnostic, DiagnosticView};
use crate::emit::{implementation_text, synthesize};
use crate::literal::{literal_text, push_string_literal};
use crate::model::{Shape, Span, TypeDescription, TypeView};
use crate::plan::{plan_of, render_plan};
use crate::validate::get_fields;
use vstd::prelude::*;
use vstd::string::StringExecFns;

verus! {

/// The implementation for a type, or the diagnostic in its place. A type that is
/// not a record with named fields is refused before any field is looked at; then
/// the first field whose annotations are refused ends the work; otherwise the text
/// holds one entry for each field, in the order of the declaration.
pub open spec fn implementation(input: TypeView) -> Result<Seq<char>, DiagnosticView> {
    if input.shape != Shape::NamedRecord {
        Err(unsupported_shape(input.span))
    } else {
        match plan_of(input.fields) {
            Err(diagnostic) => Err(diagnostic),
            Ok(plan) => Ok(implementation_text(input.name, plan)),
        }
    }
}

/// A text, or the diagnostic in its place, as the contracts speak of it.
pub open spec fn text_outcome_view(outcome: Result<String, Diagnostic>) -> Result<
    Seq<char>,
    DiagnosticView,
> {
    match outcome {
        Ok(text) => Ok(text@),
        Err(diagnostic) => Err(diagnostic@),
    }
}

/// Writes the implementation of `std::fmt::Debug` for `input`, or says why there
/// is none. Nothing is written for a type that is refused.
pub fn impl_debug(input: &TypeDescription) -> (outcome: Result<String, Diagnostic>)
    ensures
        text_outcome_view(outcome) == implementation(input@),
{
    let fields = match get_fields(input) {
        Ok(fields) => fields,
        Err(diagnostic) => {
            return Err(diagnostic);
        },
    };
    match render_plan(fields) {
        Ok(plan) => Ok(synthesize(input.name.as_str(), &plan)),
        Err(diagnostic) => Err(diagnostic),
    }
}

/// What the host puts into the program in place of the request.
#[derive(Clone, Debug, PartialEq, Eq)]
pub enum Expansion {
    /// The implementation.
    Implementation(String),
    /// A call of `compile_error!` with the diagnostic's message, which stops the
    /// build. The host reports it at `span`.
    CompileError { text: String, span: Span },
}

pub enum ExpansionView {
    Implementation(Seq<char>),
    CompileError { text: Seq<char>, span: Span },
}

impl View for Expansion {
    type V = ExpansionView;

    open spec fn view(&self) -> ExpansionView {
        match self {
            Expansion::Implementation(text) => ExpansionView::Implementation(text@),
            Expansion::CompileError { text, span } => ExpansionView::CompileError {
                text: text@,
                span: *span,
            },
        }
    }
}

/// The call of `compile_error!` that carries `message`.
pub open spec fn compile_error_text(message: Seq<char>) -> Seq<char> {
    "compile_error! { "@ + literal_text(message) + " }\n"@
}

/// What the host gets for `input`: the implementation, or the diagnostic turned
/// into a call of `compile_error!`.
pub open spec fn expansion(input: TypeView) -> ExpansionView {
    match implementation(input) {
        Ok(text) => ExpansionView::Implementation(text),
        Err(diagnostic) => ExpansionView::CompileError {
            text: compile_error_text(diagnostic.message),
            span: diagnostic.span,
        },
    }
}

impl Diagnostic {
    /// Writes the call of `compile_error!` that carries this diagnostic's message.
    pub fn to_compile_error(&self) -> (text: String)
        ensures
            text@ == compile_error_text(self@.message),
    {
        let mut text = String::from_str("compile_error! { ");
        push_string_literal(&mut text, self.message.as_str());
        text.append(" }\n");
        text
    }
}

/// Answers a request for an implementation of `std::fmt::Debug` for `input`. The
/// answer depends on `input` alone.
pub fn derive(input: &TypeDescription) -> (output: Expansion)
    ensures
        output@ == expansion(input@),
{
    match impl_debug(input) {
        Ok(text) => Expansion::Implementation(text),
        Err(diagnostic) => Expansion::CompileError {
            text: diagnostic.to_compile_error(),
            span: diagnostic.span,
        },
    }
}

} // verus!

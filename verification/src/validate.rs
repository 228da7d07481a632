//! The check that a type is a record with named fields.

use crate::diagnostic::{unsupported_shape, Diagnostic};
use crate::model::{FieldDescription, Shape, TypeDescription};
use vstd::prelude::*;

verus! {

/// Gives the fields of `input` where it is a record with named fields. A type of
/// any other shape is refused, with a diagnostic at the place of the whole type.
pub fn get_fields(input: &TypeDescription) -> (outcome: Result<&Vec<FieldDescription>, Diagnostic>)
    ensures
        match outcome {
            Ok(fields) => input.shape == Shape::NamedRecord && fields == &input.fields,
            Err(diagnostic) => input.shape != Shape::NamedRecord && diagnostic@ == unsupported_shape(
                input.span,
            ),
        },
{
    match input.shape {
        Shape::NamedRecord => Ok(&input.fields),
        _ => Err(Diagnostic::unsupported_shape(input.span)),
    }
}

} // verus!

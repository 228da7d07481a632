//! What holds of the generator on every input.

use crate::diagnostic::{
    malformed_annotation, malformed_annotation_message, unsupported_shape,
    unsupported_shape_message, DiagnosticKind, DiagnosticView,
};
use crate::emit::{entries_text, entry_text, head_text, implementation_text, tail_text};
use crate::extract::{recognized_key, scan, scan_from, verdict, VerdictView};
use crate::generate::{compile_error_text, expansion, implementation, ExpansionView};
use crate::literal::literal_text;
use crate::model::{AnnotationFormView, AnnotationView, FieldView, Shape, TypeView};
use crate::plan::{entry_of, first_refusal, mode_of, plan_of, PlanEntryView, RenderModeView};
use vstd::prelude::*;

verus! {

/// Annotations that are passed over do not change the outcome of a scan: where
/// every annotation from `start` up to `next` has no effect, the scan from `start`
/// is the scan from `next`.
pub proof fn lemma_scan_passes_over(annotations: Seq<AnnotationView>, start: int, next: int)
    requires
        0 <= start <= next <= annotations.len(),
        forall|k: int| start <= k < next ==> verdict(#[trigger] annotations[k].form) is NoEffect,
    ensures
        scan_from(annotations, start) == scan_from(annotations, next),
    decreases next - start,
{
    if start < next {
        lemma_scan_passes_over(annotations, start + 1, next);
    }
}

/// The first annotation that is not passed over decides the scan: an override
/// gives its format string, a malformed annotation gives the diagnostic at its own
/// place.
pub proof fn lemma_first_decisive_annotation(annotations: Seq<AnnotationView>, at: int)
    requires
        0 <= at < annotations.len(),
        forall|k: int| 0 <= k < at ==> verdict(#[trigger] annotations[k].form) is NoEffect,
    ensures
        verdict(annotations[at].form) matches VerdictView::Override(format) ==> scan(annotations)
            == Ok::<Option<Seq<char>>, DiagnosticView>(Some(format)),
        verdict(annotations[at].form) is Malformed ==> scan(annotations) == Err::<Option<Seq<char>>, DiagnosticView>(malformed_annotation(annotations[at].span)),
{
    lemma_scan_passes_over(annotations, 0, at);
}

/// A field without a deciding annotation has no override.
pub proof fn lemma_no_decisive_annotation(annotations: Seq<AnnotationView>)
    requires
        forall|k: int|
            0 <= k < annotations.len() ==> verdict(#[trigger] annotations[k].form) is NoEffect,
    ensures
        scan(annotations) == Ok::<Option<Seq<char>>, DiagnosticView>(None),
{
    lemma_scan_passes_over(annotations, 0, annotations.len() as int);
}

/// Every diagnostic of a scan is that of a malformed annotation of the field.
pub proof fn lemma_scan_refusal(annotations: Seq<AnnotationView>, start: int)
    requires
        0 <= start,
        scan_from(annotations, start) is Err,
    ensures
        exists|at: int|
            start <= at < annotations.len() && verdict(#[trigger] annotations[at].form) is Malformed
                && scan_from(annotations, start) == Err::<Option<Seq<char>>, DiagnosticView>(
                malformed_annotation(annotations[at].span),
            ),
    decreases annotations.len() - start,
{
    if start < annotations.len() {
        match verdict(annotations[start].form) {
            VerdictView::NoEffect => {
                lemma_scan_refusal(annotations, start + 1);
                let at = choose|at: int|
                    start + 1 <= at < annotations.len() && verdict(
                        #[trigger] annotations[at].form,
                    ) is Malformed && scan_from(annotations, start + 1) == Err::<Option<Seq<char>>, DiagnosticView>(malformed_annotation(annotations[at].span));
                assert(start <= at < annotations.len() && verdict(annotations[at].form) is Malformed);
            },
            _ => {
                assert(verdict(annotations[start].form) is Malformed);
            },
        }
    }
}

/// A `key = value` annotation under a key other than `debug` has its field
/// refused, unless an override stands before it in that field.
pub proof fn lemma_foreign_key_refuses_field(annotations: Seq<AnnotationView>, start: int, at: int)
    requires
        0 <= start <= at < annotations.len(),
        verdict(annotations[at].form) is Malformed,
        forall|k: int| start <= k < at ==> !(verdict(#[trigger] annotations[k].form) is Override),
    ensures
        scan_from(annotations, start) is Err,
    decreases at - start,
{
    if start < at {
        lemma_foreign_key_refuses_field(annotations, start + 1, at);
    }
}

/// Where the annotations of some field are refused, so is the record, with the
/// diagnostic of the first such field.
pub proof fn lemma_first_refused_field(fields: Seq<FieldView>, start: int, at: int)
    requires
        0 <= start <= at < fields.len(),
        scan(fields[at].annotations) is Err,
    ensures
        exists|first: int|
            start <= first <= at && scan(#[trigger] fields[first].annotations) is Err
                && first_refusal(fields, start) == Some(
                scan(fields[first].annotations)->Err_0,
            ) && forall|k: int|
                start <= k < first ==> scan(#[trigger] fields[k].annotations) is Ok,
    decreases at - start,
{
    if scan(fields[start].annotations) is Err {
        assert(start <= start <= at && scan(fields[start].annotations) is Err);
    } else {
        lemma_first_refused_field(fields, start + 1, at);
        let first = choose|first: int|
            start + 1 <= first <= at && scan(#[trigger] fields[first].annotations) is Err
                && first_refusal(fields, start + 1) == Some(
                scan(fields[first].annotations)->Err_0,
            ) && forall|k: int|
                start + 1 <= k < first ==> scan(#[trigger] fields[k].annotations) is Ok;
        assert(start <= first <= at && scan(fields[first].annotations) is Err);
    }
}

/// Where the annotations of every field are in order, no field is refused.
pub proof fn lemma_no_refused_field(fields: Seq<FieldView>, start: int)
    requires
        0 <= start,
        forall|k: int| start <= k < fields.len() ==> scan(#[trigger] fields[k].annotations) is Ok,
    ensures
        first_refusal(fields, start) is None,
    decreases fields.len() - start,
{
    if start < fields.len() {
        lemma_no_refused_field(fields, start + 1);
    }
}

/// A plan, once drawn up, has one entry for each field, in the order of the
/// declaration, and the annotations of every field are in order.
pub proof fn lemma_plan_follows_declaration(fields: Seq<FieldView>, start: int)
    requires
        0 <= start,
        first_refusal(fields, start) is None,
    ensures
        forall|k: int| start <= k < fields.len() ==> scan(#[trigger] fields[k].annotations) is Ok,
    decreases fields.len() - start,
{
    if start < fields.len() {
        lemma_plan_follows_declaration(fields, start + 1);
    }
}

/// The entries of two plans, one behind the other, give the text of the first
/// followed by the text of the second.
pub proof fn lemma_entries_text_concat(front: Seq<PlanEntryView>, back: Seq<PlanEntryView>)
    ensures
        entries_text(front + back) == entries_text(front) + entries_text(back),
    decreases back.len(),
{
    if back.len() == 0 {
        assert(front + back =~= front);
        assert(entries_text(front) + entries_text(back) =~= entries_text(front));
    } else {
        lemma_entries_text_concat(front, back.drop_last());
        assert((front + back).drop_last() =~= front + back.drop_last());
        assert((front + back).last() == back.last());
        assert(entries_text(front + back) =~= entries_text(front) + entries_text(back));
    }
}

/// A record without annotations is rendered field by field as the values render
/// themselves: the text holds the type's name and, in the order of the
/// declaration, one default entry for each field.
pub proof fn lemma_unannotated_record(input: TypeView)
    requires
        input.shape == Shape::NamedRecord,
        forall|i: int| 0 <= i < input.fields.len() ==> (#[trigger] input.fields[i]).annotations.len() == 0,
    ensures
        implementation(input) == Ok::<Seq<char>, DiagnosticView>(
            implementation_text(
                input.name,
                input.fields.map_values(
                    |field: FieldView|
                        PlanEntryView { name: field.name, mode: RenderModeView::Default },
                ),
            ),
        ),
{
    assert forall|k: int| 0 <= k < input.fields.len() implies scan(
        #[trigger] input.fields[k].annotations,
    ) is Ok by {
        assert(input.fields[k].annotations.len() == 0);
    }
    lemma_no_refused_field(input.fields, 0);
    assert(input.fields.map_values(|field: FieldView| entry_of(field)) =~= input.fields.map_values(
        |field: FieldView| PlanEntryView { name: field.name, mode: RenderModeView::Default },
    )) by {
        assert forall|k: int| 0 <= k < input.fields.len() implies entry_of(
            #[trigger] input.fields[k],
        ) == (PlanEntryView { name: input.fields[k].name, mode: RenderModeView::Default }) by {
            assert(input.fields[k].annotations.len() == 0);
        }
    }
}

/// Each field follows its own rule, and the order of the text is the order of the
/// declaration: where an implementation is written, the entry at each position is
/// that of the field at that position, rendered through the field's own override
/// or, without one, as the value renders itself; and the text is what stands
/// before that entry, the entry, and what stands behind it.
pub proof fn lemma_fields_follow_their_own_rule(input: TypeView, i: int)
    requires
        implementation(input) is Ok,
        0 <= i < input.fields.len(),
    ensures
        plan_of(input.fields) is Ok,
        scan(input.fields[i].annotations) is Ok,
        ({
            let plan = plan_of(input.fields)->Ok_0;
            &&& plan.len() == input.fields.len()
            &&& plan[i].name == input.fields[i].name
            &&& plan[i].mode == mode_of(scan(input.fields[i].annotations)->Ok_0)
            &&& implementation(input)->Ok_0 == head_text(input.name) + entries_text(
                plan.take(i),
            ) + entry_text(plan[i]) + entries_text(plan.skip(i + 1)) + tail_text()
        }),
{
    lemma_plan_follows_declaration(input.fields, 0);
    let plan = plan_of(input.fields)->Ok_0;
    assert(plan.take(i + 1).drop_last() =~= plan.take(i));
    assert(plan.take(i + 1).last() == plan[i]);
    assert(plan =~= plan.take(i + 1) + plan.skip(i + 1));
    lemma_entries_text_concat(plan.take(i + 1), plan.skip(i + 1));
    assert(implementation(input)->Ok_0 =~= head_text(input.name) + entries_text(
        plan.take(i),
    ) + entry_text(plan[i]) + entries_text(plan.skip(i + 1)) + tail_text());
}

/// A field that names a format string is rendered through it: where an
/// implementation is written and the first deciding annotation of a field is
/// `debug = "..."`, the entry of that field hands the value to `format_args!`
/// under the literal of that format string, and not as the value renders itself.
pub proof fn lemma_override_is_applied(input: TypeView, field: int, at: int)
    requires
        implementation(input) is Ok,
        0 <= field < input.fields.len(),
        0 <= at < input.fields[field].annotations.len(),
        verdict(input.fields[field].annotations[at].form) is Override,
        forall|k: int|
            0 <= k < at ==> verdict(#[trigger] input.fields[field].annotations[k].form) is NoEffect,
    ensures
        plan_of(input.fields) is Ok,
        ({
            let entry = plan_of(input.fields)->Ok_0[field];
            let format = verdict(input.fields[field].annotations[at].form)->Override_0;
            &&& entry.mode == RenderModeView::CustomFormat(format)
            &&& entry_text(entry) == "            .field(stringify!("@ + input.fields[field].name
                + "), &format_args!("@ + literal_text(format) + ", &self."@
                + input.fields[field].name + "))\n"@
        }),
{
    lemma_fields_follow_their_own_rule(input, field);
    lemma_first_decisive_annotation(input.fields[field].annotations, at);
}

/// A type that is not a record with named fields gets the diagnostic for an
/// unsupported shape, at the place of the whole type, and no implementation.
pub proof fn lemma_unsupported_shape(input: TypeView)
    requires
        input.shape != Shape::NamedRecord,
    ensures
        implementation(input) == Err::<Seq<char>, DiagnosticView>(unsupported_shape(input.span)),
        expansion(input) == (ExpansionView::CompileError {
            text: compile_error_text(unsupported_shape_message()),
            span: input.span,
        }),
{
}

/// A record with a `key = value` annotation under a key other than `debug` gets
/// the diagnostic for a malformed annotation and no implementation, unless an
/// override stands before that annotation in its field.
pub proof fn lemma_foreign_key_is_refused(input: TypeView, field: int, at: int)
    requires
        input.shape == Shape::NamedRecord,
        0 <= field < input.fields.len(),
        0 <= at < input.fields[field].annotations.len(),
        input.fields[field].annotations[at].form matches AnnotationFormView::NameValue { key, .. }
            && key != recognized_key(),
        forall|k: int|
            0 <= k < at ==> !(verdict(#[trigger] input.fields[field].annotations[k].form) is Override),
    ensures
        implementation(input) is Err,
        implementation(input)->Err_0.kind == DiagnosticKind::MalformedAnnotation,
        implementation(input)->Err_0.message == malformed_annotation_message(),
        expansion(input) is CompileError,
        expansion(input)->CompileError_text == compile_error_text(malformed_annotation_message()),
{
    lemma_foreign_key_refuses_field(input.fields[field].annotations, 0, at);
    lemma_first_refused_field(input.fields, 0, field);
    let first = choose|first: int|
        0 <= first <= field && scan(#[trigger] input.fields[first].annotations) is Err
            && first_refusal(input.fields, 0) == Some(scan(input.fields[first].annotations)->Err_0)
            && forall|k: int| 0 <= k < first ==> scan(#[trigger] input.fields[k].annotations) is Ok;
    lemma_scan_refusal(input.fields[first].annotations, 0);
}

/// The diagnostic points at the first malformed annotation: where every field
/// before `field` is in order and every annotation before `at` is passed over, the
/// diagnostic stands at the place of the annotation at `at`.
pub proof fn lemma_diagnostic_points_at_annotation(input: TypeView, field: int, at: int)
    requires
        input.shape == Shape::NamedRecord,
        0 <= field < input.fields.len(),
        0 <= at < input.fields[field].annotations.len(),
        verdict(input.fields[field].annotations[at].form) is Malformed,
        forall|k: int|
            0 <= k < at ==> verdict(#[trigger] input.fields[field].annotations[k].form) is NoEffect,
        forall|k: int| 0 <= k < field ==> scan(#[trigger] input.fields[k].annotations) is Ok,
    ensures
        implementation(input) == Err::<Seq<char>, DiagnosticView>(
            malformed_annotation(input.fields[field].annotations[at].span),
        ),
{
    lemma_first_decisive_annotation(input.fields[field].annotations, at);
    lemma_first_refused_field(input.fields, 0, field);
}

/// The generator keeps no state: two descriptions that say the same get the same
/// answer, character for character.
pub proof fn lemma_same_description_same_expansion(first: TypeView, second: TypeView)
    requires
        first == second,
    ensures
        implementation(first) == implementation(second),
        expansion(first) == expansion(second),
{
}

} // verus!

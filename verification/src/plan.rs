//! The render plan: how each field of a record is to be rendered.

use crate::diagnostic::{Diagnostic, DiagnosticView};
use crate::extract::{get_field_attrs, outcome_view, scan};
use crate::model::{FieldDescription, FieldView};
use vstd::prelude::*;

verus! {

/// How the value of one field is rendered.
#[derive(Clone, Debug, PartialEq, Eq)]
pub enum RenderMode {
    /// As the value renders itself.
    Default,
    /// Through the format string that the field's annotation names.
    CustomFormat(String),
}

pub enum RenderModeView {
    Default,
    CustomFormat(Seq<char>),
}

impl View for RenderMode {
    type V = RenderModeView;

    open spec fn view(&self) -> RenderModeView {
        match self {
            RenderMode::Default => RenderModeView::Default,
            RenderMode::CustomFormat(format) => RenderModeView::CustomFormat(format@),
        }
    }
}

/// One entry of the plan: a field and the way to render it.
#[derive(Clone, Debug, PartialEq, Eq)]
pub struct PlanEntry {
    pub name: String,
    pub mode: RenderMode,
}

pub struct PlanEntryView {
    pub name: Seq<char>,
    pub mode: RenderModeView,
}

impl View for PlanEntry {
    type V = PlanEntryView;

    open spec fn view(&self) -> PlanEntryView {
        PlanEntryView { name: self.name@, mode: self.mode@ }
    }
}

/// The plan that a vector of entries stands for.
pub open spec fn plan_view(plan: Seq<PlanEntry>) -> Seq<PlanEntryView> {
    plan.map_values(|entry: PlanEntry| entry@)
}

/// The mode that the outcome of a field's scan calls for.
pub open spec fn mode_of(found: Option<Seq<char>>) -> RenderModeView {
    match found {
        Some(format) => RenderModeView::CustomFormat(format),
        None => RenderModeView::Default,
    }
}

/// The entry of a field whose annotations are in order. It depends on that field
/// alone.
pub open spec fn entry_of(field: FieldView) -> PlanEntryView {
    PlanEntryView {
        name: field.name,
        mode: match scan(field.annotations) {
            Ok(found) => mode_of(found),
            Err(_) => RenderModeView::Default,
        },
    }
}

/// The diagnostic of the first field, from position `start` on, whose annotations
/// are refused.
pub open spec fn first_refusal(fields: Seq<FieldView>, start: int) -> Option<DiagnosticView>
    decreases fields.len() - start,
{
    if 0 <= start < fields.len() {
        match scan(fields[start].annotations) {
            Err(diagnostic) => Some(diagnostic),
            Ok(_) => first_refusal(fields, start + 1),
        }
    } else {
        None
    }
}

/// The plan for the fields of a record: one entry for each field, in the order of
/// the declaration, unless the annotations of some field are refused.
pub open spec fn plan_of(fields: Seq<FieldView>) -> Result<Seq<PlanEntryView>, DiagnosticView> {
    match first_refusal(fields, 0) {
        Some(diagnostic) => Err(diagnostic),
        None => Ok(fields.map_values(|field: FieldView| entry_of(field))),
    }
}

/// A plan, or the diagnostic in its place, as the contracts speak of it.
pub open spec fn plan_outcome_view(outcome: Result<Vec<PlanEntry>, Diagnostic>) -> Result<
    Seq<PlanEntryView>,
    DiagnosticView,
> {
    match outcome {
        Ok(plan) => Ok(plan_view(plan@)),
        Err(diagnostic) => Err(diagnostic@),
    }
}

/// Draws up the plan for `fields`. The fields are taken in order, and the first
/// whose annotations are refused ends the work with its diagnostic.
pub fn render_plan(fields: &Vec<FieldDescription>) -> (outcome: Result<Vec<PlanEntry>, Diagnostic>)
    ensures
        plan_outcome_view(outcome) == plan_of(fields@.map_values(|f: FieldDescription| f@)),
{
    let ghost views = fields@.map_values(|f: FieldDescription| f@);
    let mut plan: Vec<PlanEntry> = Vec::new();
    let mut i: usize = 0;
    while i < fields.len()
        invariant
            views == fields@.map_values(|f: FieldDescription| f@),
            0 <= i <= fields.len(),
            first_refusal(views, 0) == first_refusal(views, i as int),
            plan@.len() == i,
            forall|k: int| 0 <= k < i ==> (#[trigger] plan@[k])@ == entry_of(views[k]),
        decreases fields.len() - i,
    {
        let field = &fields[i];
        assert(views[i as int] == field@);
        let outcome = get_field_attrs(field);
        assert(outcome_view(outcome) == scan(field@.annotations));
        let mode = match outcome {
            Ok(Some(format)) => RenderMode::CustomFormat(format),
            Ok(None) => RenderMode::Default,
            Err(diagnostic) => {
                return Err(diagnostic);
            },
        };
        plan.push(PlanEntry { name: field.name.clone(), mode });
        i += 1;
    }
    assert(plan_view(plan@) =~= views.map_values(|field: FieldView| entry_of(field)));
    Ok(plan)
}

} // verus!

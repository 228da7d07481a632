//! The source text of the implementation.
//!
//! For a record `Foo` with a field `a` that renders itself and a field `b` that is
//! rendered through `"{}!"`, the text is
//!
//! ```text
//! impl std::fmt::Debug for Foo {
//!     fn fmt(&self, fmt: &mut std::fmt::Formatter) -> std::fmt::Result {
//!         fmt.debug_struct(stringify!(Foo))
//!             .field(stringify!(a), &self.a)
//!             .field(stringify!(b), &format_args!("{}!", &self.b))
//!             .finish()
//!     }
//! }
//! ```

use crate::literal::{literal_text, push_string_literal};
use crate::plan::{plan_view, PlanEntry, PlanEntryView, RenderMode, RenderModeView};
use vstd::prelude::*;
use vstd::string::StringExecFns;

verus! {

/// The text up to the first entry, for a type of the given name.
pub open spec fn head_text(name: Seq<char>) -> Seq<char> {
    "impl std::fmt::Debug for "@ + name
        + " {\n    fn fmt(&self, fmt: &mut std::fmt::Formatter) -> std::fmt::Result {\n        fmt.debug_struct(stringify!("@
        + name + "))\n"@
}

/// The text of one entry.
pub open spec fn entry_text(entry: PlanEntryView) -> Seq<char> {
    match entry.mode {
        RenderModeView::Default => "            .field(stringify!("@ + entry.name + "), &self."@
            + entry.name + ")\n"@,
        RenderModeView::CustomFormat(format) => "            .field(stringify!("@ + entry.name
            + "), &format_args!("@ + literal_text(format) + ", &self."@ + entry.name + "))\n"@,
    }
}

/// The text of the entries, one behind the other in the order of the plan.
pub open spec fn entries_text(plan: Seq<PlanEntryView>) -> Seq<char>
    decreases plan.len(),
{
    if plan.len() == 0 {
        Seq::empty()
    } else {
        entries_text(plan.drop_last()) + entry_text(plan.last())
    }
}

/// The text behind the last entry.
pub open spec fn tail_text() -> Seq<char> {
    "            .finish()\n    }\n}\n"@
}

/// The whole implementation for a type of the given name and plan.
pub open spec fn implementation_text(name: Seq<char>, plan: Seq<PlanEntryView>) -> Seq<char> {
    head_text(name) + entries_text(plan) + tail_text()
}

fn push_entry(out: &mut String, entry: &PlanEntry)
    ensures
        final(out)@ == old(out)@ + entry_text(entry@),
{
    out.append("            .field(stringify!(");
    out.append(entry.name.as_str());
    match &entry.mode {
        RenderMode::Default => {
            out.append("), &self.");
            out.append(entry.name.as_str());
            out.append(")\n");
        },
        RenderMode::CustomFormat(format) => {
            out.append("), &format_args!(");
            push_string_literal(out, format.as_str());
            out.append(", &self.");
            out.append(entry.name.as_str());
            out.append("))\n");
        },
    }
    assert(out@ =~= old(out)@ + entry_text(entry@));
}

/// Writes the implementation of `std::fmt::Debug` for the type called `name`,
/// with one entry for each entry of `plan`, in the plan's order.
pub fn synthesize(name: &str, plan: &Vec<PlanEntry>) -> (text: String)
    ensures
        text@ == implementation_text(name@, plan_view(plan@)),
{
    let ghost entries = plan_view(plan@);
    let mut text = String::from_str("impl std::fmt::Debug for ");
    text.append(name);
    text.append(
        " {\n    fn fmt(&self, fmt: &mut std::fmt::Formatter) -> std::fmt::Result {\n        fmt.debug_struct(stringify!(",
    );
    text.append(name);
    text.append("))\n");
    assert(text@ =~= head_text(name@));
    let mut i: usize = 0;
    while i < plan.len()
        invariant
            entries == plan_view(plan@),
            0 <= i <= plan.len(),
            text@ == head_text(name@) + entries_text(entries.take(i as int)),
        decreases plan.len() - i,
    {
        proof {
            let next = entries.take(i + 1);
            assert(next.drop_last() == entries.take(i as int));
            assert(next.last() == plan@[i as int]@);
        }
        push_entry(&mut text, &plan[i]);
        assert(text@ =~= head_text(name@) + entries_text(entries.take(i + 1)));
        i += 1;
    }
    assert(entries.take(plan.len() as int) == entries);
    text.append("            .finish()\n    }\n}\n");
    text
}

} // verus!

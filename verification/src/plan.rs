//! Plans: what applying a profile to the current state would do, and how
//! that is reported.

use vstd::prelude::*;
use vstd::string::StringExecFns;
use crate::device::Role;
use crate::differ::{
    diff_audio_state, diff_descriptions, diff_operations, display, display_identity, Operation,
    OperationView,
};
use crate::profile::{Profile, ProfileView};
use crate::state::{AudioState, AudioStateView};
use crate::text::copy_texts;

verus! {

/// What applying a profile would do to the machine.
#[derive(Debug, PartialEq, Eq)]
pub struct ApplyPlan {
    /// Name of the profile that the plan was made from.
    pub profile_name: String,
    /// The state of the machine when the plan was made.
    pub current: AudioState,
    /// The state that the profile asks for.
    pub target: AudioState,
    /// The changes to make, in the order in which they are made.
    pub operations: Vec<Operation>,
    /// One line for each operation, in the same order.
    pub descriptions: Vec<String>,
    /// What went wrong while the current state was captured.
    pub notes: Vec<String>,
}

/// What an `ApplyPlan` holds, with its texts as sequences of characters.
pub struct ApplyPlanView {
    pub profile_name: Seq<char>,
    pub current: AudioStateView,
    pub target: AudioStateView,
    pub operations: Seq<OperationView>,
    pub descriptions: Seq<Seq<char>>,
    pub notes: Seq<Seq<char>>,
}

impl ApplyPlanView {
    /// The operations and descriptions are those that comparing `current`
    /// with `target` gives.
    pub open spec fn wf(self) -> bool {
        &&& self.operations == diff_operations(self.current, self.target)
        &&& self.descriptions == diff_descriptions(self.current, self.target)
    }
}

impl View for ApplyPlan {
    type V = ApplyPlanView;

    open spec fn view(&self) -> ApplyPlanView {
        ApplyPlanView {
            profile_name: self.profile_name@,
            current: self.current@,
            target: self.target@,
            operations: self.operations.deep_view(),
            descriptions: self.descriptions.deep_view(),
            notes: self.notes.deep_view(),
        }
    }
}

fn copy_operations(items: &Vec<Operation>) -> (r: Vec<Operation>)
    ensures
        r.deep_view() == items.deep_view(),
{
    let mut out: Vec<Operation> = Vec::new();
    let mut i: usize = 0;
    while i < items.len()
        invariant
            i <= items.len(),
            out.len() == i,
            forall|j: int| 0 <= j < i ==> (#[trigger] out[j])@ == items[j]@,
        decreases items.len() - i,
    {
        out.push(items[i].clone());
        i += 1;
    }
    assert(out.deep_view() =~= items.deep_view());
    out
}

impl Clone for ApplyPlan {
    fn clone(&self) -> (r: Self)
        ensures
            r@ == self@,
    {
        ApplyPlan {
            profile_name: self.profile_name.clone(),
            current: self.current.clone(),
            target: self.target.clone(),
            operations: copy_operations(&self.operations),
            descriptions: copy_texts(&self.descriptions),
            notes: copy_texts(&self.notes),
        }
    }
}

/// The plan that `apply_plan` makes from a profile, the current state and
/// the notes of its capture.
pub open spec fn plan_of(profile: ProfileView, current: AudioStateView, notes: Seq<Seq<char>>) -> ApplyPlanView {
    ApplyPlanView {
        profile_name: profile.name,
        current,
        target: profile.state,
        operations: diff_operations(current, profile.state),
        descriptions: diff_descriptions(current, profile.state),
        notes,
    }
}

/// Plans the application of `profile` to a machine whose state is
/// `current`. `notes` are the notes of the capture that gave `current`; the
/// plan carries them along.
pub fn apply_plan(profile: &Profile, current: AudioState, notes: Vec<String>) -> (plan: ApplyPlan)
    ensures
        plan@ == plan_of(profile@, current@, notes.deep_view()),
        plan@.wf(),
{
    let target = profile.state.clone();
    let (operations, descriptions) = diff_audio_state(&current, &target);
    ApplyPlan {
        profile_name: profile.name.clone(),
        current,
        target,
        operations,
        descriptions,
        notes,
    }
}

/// A list of lines as it appears in a report: each on a line of its own,
/// indented and marked with a dash.
pub open spec fn report_items(items: Seq<Seq<char>>) -> Seq<char>
    decreases items.len(),
{
    if items.len() == 0 {
        Seq::empty()
    } else {
        report_items(items.drop_last()) + "  - "@ + items.last() + "\n"@
    }
}

/// The line of a report that pairs the current device of `role` with its
/// target.
pub open spec fn report_role(plan: ApplyPlanView, role: Role) -> Seq<char> {
    "  "@ + role.label_spec() + ": "@ + display(plan.current.device(role)) + " -> "@ + display(
        plan.target.device(role),
    ) + "\n"@
}

/// The part of a report that lists the changes.
pub open spec fn report_changes(descriptions: Seq<Seq<char>>) -> Seq<char> {
    if descriptions.len() == 0 {
        "changes: (none or unknown)\n"@
    } else {
        "changes:\n"@ + report_items(descriptions)
    }
}

/// The part of a report that lists the notes; empty if there are none.
pub open spec fn report_notes(notes: Seq<Seq<char>>) -> Seq<char> {
    if notes.len() == 0 {
        Seq::empty()
    } else {
        "notes:\n"@ + report_items(notes)
    }
}

/// The report on a plan: the profile's name, the mode, both roles with
/// their current and target device, the changes, and the notes.
pub open spec fn report(plan: ApplyPlanView) -> Seq<char> {
    "profile: "@ + plan.profile_name + "\n"@ + "mode: dry-run\n"@ + "state:\n"@ + report_role(
        plan,
        Role::Output,
    ) + report_role(plan, Role::Input) + report_changes(plan.descriptions) + report_notes(
        plan.notes,
    )
}

fn push_items(out: &mut String, items: &Vec<String>)
    ensures
        final(out)@ == old(out)@ + report_items(items.deep_view()),
{
    let mut i: usize = 0;
    assert(items.deep_view().take(0) =~= Seq::<Seq<char>>::empty());
    while i < items.len()
        invariant
            i <= items.len(),
            out@ == old(out)@ + report_items(items.deep_view().take(i as int)),
        decreases items.len() - i,
    {
        proof {
            let done = items.deep_view().take(i as int);
            let next = items.deep_view().take(i + 1);
            assert(next.drop_last() =~= done);
            assert(next.last() == items[i as int]@);
        }
        out.append("  - ");
        out.append(items[i].as_str());
        out.append("\n");
        assert(out@ =~= old(out)@ + report_items(items.deep_view().take(i + 1)));
        i += 1;
    }
    assert(items.deep_view().take(i as int) =~= items.deep_view());
}

fn push_role(out: &mut String, plan: &ApplyPlan, role: Role)
    ensures
        final(out)@ == old(out)@ + report_role(plan@, role),
{
    out.append("  ");
    out.append(role.label());
    out.append(": ");
    out.append(display_identity(plan.current.device(role)));
    out.append(" -> ");
    out.append(display_identity(plan.target.device(role)));
    out.append("\n");
    assert(out@ =~= old(out)@ + report_role(plan@, role));
}

/// Writes the report on `plan`.
///
/// Both roles are shown with their current and target device, whether or
/// not they change. An unknown device is shown as `(unknown)`.
pub fn render_plan(plan: &ApplyPlan) -> (out: String)
    ensures
        out@ == report(plan@),
{
    let mut out = String::new();
    out.append("profile: ");
    out.append(plan.profile_name.as_str());
    out.append("\n");
    out.append("mode: dry-run\n");
    out.append("state:\n");
    push_role(&mut out, plan, Role::Output);
    push_role(&mut out, plan, Role::Input);
    if plan.descriptions.len() == 0 {
        out.append("changes: (none or unknown)\n");
    } else {
        out.append("changes:\n");
        push_items(&mut out, &plan.descriptions);
    }
    if plan.notes.len() != 0 {
        out.append("notes:\n");
        push_items(&mut out, &plan.notes);
    }
    assert(out@ =~= report(plan@));
    out
}

/// Writes the report on what applying `profile` to a machine in state
/// `current` would do, without doing it.
pub fn dry_run_apply(profile: &Profile, current: AudioState, notes: Vec<String>) -> (out: String)
    ensures
        out@ == report(plan_of(profile@, current@, notes.deep_view())),
{
    let plan = apply_plan(profile, current, notes);
    render_plan(&plan)
}

} // verus!

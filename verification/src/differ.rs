//! Comparing two routing states: which devices have to be switched to turn
//! the current state into the target state.

use vstd::prelude::*;
use vstd::string::StringExecFns;
use crate::device::Role;
use crate::state::{AudioState, AudioStateView};

verus! {

/// One change to the machine: make `target` the default device of `role`.
#[derive(Debug, PartialEq, Eq)]
pub struct Operation {
    /// The slot to fill.
    pub role: Role,
    /// Identity of the device to put there.
    pub target: String,
}

/// What an `Operation` holds, with the identity as a sequence of characters.
pub struct OperationView {
    pub role: Role,
    pub target: Seq<char>,
}

impl View for Operation {
    type V = OperationView;

    open spec fn view(&self) -> OperationView {
        OperationView { role: self.role, target: self.target@ }
    }
}

impl DeepView for Operation {
    type V = OperationView;

    open spec fn deep_view(&self) -> OperationView {
        self@
    }
}

impl Clone for Operation {
    fn clone(&self) -> (r: Self)
        ensures
            r@ == self@,
    {
        Operation { role: self.role, target: self.target.clone() }
    }
}

/// How an identity is shown to the user. An unknown identity is shown as a
/// marker of its own, never as an empty string.
pub open spec fn display(identity: Option<Seq<char>>) -> Seq<char> {
    match identity {
        Some(s) => s,
        None => "(unknown)"@,
    }
}

/// A role has to be switched when its target is known and the current device
/// is unknown or another one.
pub open spec fn needs_change(current: Option<Seq<char>>, target: Option<Seq<char>>) -> bool {
    target is Some && current != target
}

/// The line that describes the switch of `role` from `current` to `target`.
pub open spec fn change_description(
    role: Role,
    current: Option<Seq<char>>,
    target: Option<Seq<char>>,
) -> Seq<char> {
    role.label_spec() + ": "@ + display(current) + " -> "@ + display(target)
}

/// The operations that `role` contributes: one if it has to be switched,
/// none otherwise.
pub open spec fn role_operations(
    current: AudioStateView,
    target: AudioStateView,
    role: Role,
) -> Seq<OperationView> {
    if needs_change(current.device(role), target.device(role)) {
        seq![OperationView { role, target: target.device(role)->0 }]
    } else {
        seq![]
    }
}

/// The descriptions that `role` contributes: one if it has to be switched,
/// none otherwise.
pub open spec fn role_descriptions(
    current: AudioStateView,
    target: AudioStateView,
    role: Role,
) -> Seq<Seq<char>> {
    if needs_change(current.device(role), target.device(role)) {
        seq![change_description(role, current.device(role), target.device(role))]
    } else {
        seq![]
    }
}

/// The operations that turn `current` into `target`: those of the output
/// role, then those of the input role.
pub open spec fn diff_operations(current: AudioStateView, target: AudioStateView) -> Seq<
    OperationView,
> {
    role_operations(current, target, Role::Output) + role_operations(current, target, Role::Input)
}

/// The descriptions of `diff_operations`, in the same order.
pub open spec fn diff_descriptions(current: AudioStateView, target: AudioStateView) -> Seq<
    Seq<char>,
> {
    role_descriptions(current, target, Role::Output) + role_descriptions(
        current,
        target,
        Role::Input,
    )
}

/// Whether two optional identities are the same: both unknown, or both known
/// and equal.
pub fn same_identity(a: &Option<String>, b: &Option<String>) -> (r: bool)
    ensures
        r == (a.deep_view() == b.deep_view()),
{
    match (a, b) {
        (Some(x), Some(y)) => x.eq(y),
        (None, None) => true,
        _ => false,
    }
}

/// The text that shows an optional identity to the user.
pub fn display_identity(identity: &Option<String>) -> (s: &str)
    ensures
        s@ == display(identity.deep_view()),
{
    match identity {
        Some(s) => s.as_str(),
        None => "(unknown)",
    }
}

/// The line that describes the switch of `role` from `current` to `target`.
pub fn describe_change(role: Role, current: &Option<String>, target: &Option<String>) -> (s: String)
    ensures
        s@ == change_description(role, current.deep_view(), target.deep_view()),
{
    let mut s = String::from_str(role.label());
    s.append(": ");
    s.append(display_identity(current));
    s.append(" -> ");
    s.append(display_identity(target));
    s
}

fn diff_role(
    current: &AudioState,
    target: &AudioState,
    role: Role,
    operations: &mut Vec<Operation>,
    descriptions: &mut Vec<String>,
)
    ensures
        final(operations).deep_view() == old(operations).deep_view() + role_operations(
            current@,
            target@,
            role,
        ),
        final(descriptions).deep_view() == old(descriptions).deep_view() + role_descriptions(
            current@,
            target@,
            role,
        ),
{
    let now = current.device(role);
    match target.device(role) {
        Some(wanted) => {
            if !same_identity(now, target.device(role)) {
                let line = describe_change(role, now, target.device(role));
                operations.push(Operation { role, target: wanted.clone() });
                descriptions.push(line);
            }
        },
        None => {},
    }
    assert(operations.deep_view() =~= old(operations).deep_view() + role_operations(
        current@,
        target@,
        role,
    ));
    assert(descriptions.deep_view() =~= old(descriptions).deep_view() + role_descriptions(
        current@,
        target@,
        role,
    ));
}

/// Computes the operations that turn `current` into `target`, and one
/// description for each.
///
/// A role whose target is unknown is left alone, and so is a role that
/// already has its target. The output role comes before the input role.
/// The first component holds the operations, the second the descriptions.
pub fn diff_audio_state(current: &AudioState, target: &AudioState) -> (r: (
    Vec<Operation>,
    Vec<String>,
))
    ensures
        r.0.deep_view() == diff_operations(current@, target@),
        r.1.deep_view() == diff_descriptions(current@, target@),
{
    let mut operations: Vec<Operation> = Vec::new();
    let mut descriptions: Vec<String> = Vec::new();
    assert(operations.deep_view() =~= Seq::<OperationView>::empty());
    assert(descriptions.deep_view() =~= Seq::<Seq<char>>::empty());
    diff_role(current, target, Role::Output, &mut operations, &mut descriptions);
    diff_role(current, target, Role::Input, &mut operations, &mut descriptions);
    assert(operations.deep_view() =~= diff_operations(current@, target@));
    assert(descriptions.deep_view() =~= diff_descriptions(current@, target@));
    (operations, descriptions)
}

} // verus!

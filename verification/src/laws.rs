//! What holds of comparing states and of applying plans, whatever the
//! states and the answers of the device directory are.

use vstd::prelude::*;
use crate::device::{DeviceError, Role};
use crate::differ::{
    diff_descriptions, diff_operations, needs_change, role_descriptions, role_operations,
    OperationView,
};
use crate::engine::{
    action_in, event_of, final_stage, next_stage, requests, result_of, stage_at, steps_left,
    ApplyActionView, ApplyError, ApplyEvent, ApplyStage,
};
use crate::plan::plan_of;
use crate::profile::ProfileView;
use crate::state::{AudioState, AudioStateView};

verus! {

/// The target asks for nothing that the current state does not have
/// already: every device that the target names is the current one.
pub open spec fn satisfies(current: AudioStateView, target: AudioStateView) -> bool {
    forall|role: Role|
        (#[trigger] target.device(role)) is Some ==> current.device(role) == target.device(role)
}

/// Comparing a state with a target that it satisfies gives no operation and
/// no description. In particular a state compared with itself gives none.
pub proof fn diff_of_satisfied_target_is_empty(current: AudioStateView, target: AudioStateView)
    requires
        satisfies(current, target),
    ensures
        diff_operations(current, target) == Seq::<OperationView>::empty(),
        diff_descriptions(current, target) == Seq::<Seq<char>>::empty(),
        diff_operations(current, current) == Seq::<OperationView>::empty(),
        diff_descriptions(current, current) == Seq::<Seq<char>>::empty(),
{
    assert(!needs_change(current.device(Role::Output), target.device(Role::Output)));
    assert(!needs_change(current.device(Role::Input), target.device(Role::Input)));
    assert(diff_operations(current, target) =~= Seq::<OperationView>::empty());
    assert(diff_descriptions(current, target) =~= Seq::<Seq<char>>::empty());
    assert(diff_operations(current, current) =~= Seq::<OperationView>::empty());
    assert(diff_descriptions(current, current) =~= Seq::<Seq<char>>::empty());
}

/// Applying a plan without operations asks nothing of the device directory
/// and succeeds, at the first step.
pub proof fn empty_plan_applies_without_requests(
    operations: Seq<OperationView>,
    answers: Seq<Result<(), DeviceError>>,
    event: ApplyEvent,
)
    requires
        operations.len() == 0,
    ensures
        next_stage(operations, ApplyStage::Planned, event) == ApplyStage::Applied,
        action_in(operations, ApplyStage::Applied) == ApplyActionView::Stop(Ok(())),
        final_stage(operations, answers, ApplyStage::Planned) == ApplyStage::Applied,
        requests(operations, answers, ApplyStage::Planned) == Seq::<OperationView>::empty(),
{
    reveal_with_fuel(final_stage, 2);
    reveal_with_fuel(requests, 2);
}

/// Applying a profile is idempotent: on a machine that is in the profile's
/// state already, the plan has no operation and no description, and
/// applying it asks nothing of the device directory and succeeds.
pub proof fn applying_twice_changes_nothing(
    profile: ProfileView,
    notes: Seq<Seq<char>>,
    answers: Seq<Result<(), DeviceError>>,
)
    ensures
        plan_of(profile, profile.state, notes).operations == Seq::<OperationView>::empty(),
        plan_of(profile, profile.state, notes).descriptions == Seq::<Seq<char>>::empty(),
        requests(plan_of(profile, profile.state, notes).operations, answers, ApplyStage::Planned)
            == Seq::<OperationView>::empty(),
        result_of(
            final_stage(
                plan_of(profile, profile.state, notes).operations,
                answers,
                ApplyStage::Planned,
            ),
        ) == Ok::<(), ApplyError>(()),
{
    diff_of_satisfied_target_is_empty(profile.state, profile.state);
    empty_plan_applies_without_requests(
        plan_of(profile, profile.state, notes).operations,
        answers,
        ApplyEvent::Start,
    );
}

/// Comparing depends on what the states hold and on nothing else: states
/// with the same contents give the same operations and the same
/// descriptions.
pub proof fn diff_is_deterministic(
    current_a: AudioState,
    target_a: AudioState,
    current_b: AudioState,
    target_b: AudioState,
)
    requires
        current_a@ == current_b@,
        target_a@ == target_b@,
    ensures
        diff_operations(current_a@, target_a@) == diff_operations(current_b@, target_b@),
        diff_descriptions(current_a@, target_a@) == diff_descriptions(current_b@, target_b@),
{
}

/// The output role always comes before the input role: a comparison gives at
/// most one operation for each role, as many descriptions as operations,
/// and where it gives two operations the first is for the output.
pub proof fn diff_puts_output_first(current: AudioStateView, target: AudioStateView)
    ensures
        diff_operations(current, target).len() == diff_descriptions(current, target).len(),
        diff_operations(current, target).len() <= 2,
        forall|i: int, j: int|
            0 <= i < j < diff_operations(current, target).len() ==> {
                &&& (#[trigger] diff_operations(current, target)[i]).role == Role::Output
                &&& (#[trigger] diff_operations(current, target)[j]).role == Role::Input
            },
{
}

/// A role whose target is unknown is never switched, whatever the current
/// state is.
pub proof fn unknown_target_gives_no_operation(
    current: AudioStateView,
    target: AudioStateView,
    role: Role,
)
    requires
        target.device(role) is None,
    ensures
        role_operations(current, target, role) == Seq::<OperationView>::empty(),
        role_descriptions(current, target, role) == Seq::<Seq<char>>::empty(),
        forall|i: int|
            0 <= i < diff_operations(current, target).len() ==> (#[trigger] diff_operations(
                current,
                target,
            )[i]).role != role,
{
}

/// Every operation of a comparison is for a role that has to change, and
/// sets the device that the target names for it.
pub proof fn diff_operations_aim_at_target(current: AudioStateView, target: AudioStateView)
    ensures
        forall|i: int|
            0 <= i < diff_operations(current, target).len() ==> {
                let op = #[trigger] diff_operations(current, target)[i];
                &&& target.device(op.role) == Some(op.target)
                &&& current.device(op.role) != target.device(op.role)
            },
{
}

/// As long as the device directory carries out what it is asked for, the
/// operations are asked for in the order of the plan: from the stage of the
/// operation at `i`, with no failure from `i` on, the application ends in
/// `Applied`, and what is asked for is the plan from `i` on.
pub proof fn apply_without_failure(
    operations: Seq<OperationView>,
    answers: Seq<Result<(), DeviceError>>,
    i: int,
)
    requires
        operations.len() <= usize::MAX,
        answers.len() == operations.len(),
        0 <= i <= operations.len(),
        forall|k: int| i <= k < operations.len() ==> (#[trigger] answers[k]) is Ok,
    ensures
        final_stage(operations, answers, stage_at(operations, i)) == ApplyStage::Applied,
        requests(operations, answers, stage_at(operations, i)) == operations.skip(i),
    decreases operations.len() - i,
{
    if i < operations.len() {
        assert(answers[i] is Ok);
        apply_without_failure(operations, answers, i + 1);
        assert(requests(operations, answers, stage_at(operations, i)) =~= operations.skip(i));
    } else {
        assert(requests(operations, answers, stage_at(operations, i)) =~= operations.skip(i));
    }
}

/// Applying stops at the first failure. From the stage of the operation at
/// `i`, when the first failure from `i` on is that of the operation at `k`,
/// the application ends in `Failed` with the role of that operation and the
/// cause that the device directory gave, and what is asked for is the plan
/// from `i` up to and including `k`: nothing after `k`.
pub proof fn apply_stops_at_first_failure(
    operations: Seq<OperationView>,
    answers: Seq<Result<(), DeviceError>>,
    i: int,
    k: int,
)
    requires
        operations.len() <= usize::MAX,
        answers.len() == operations.len(),
        0 <= i <= k < operations.len(),
        answers[k] is Err,
        forall|j: int| i <= j < k ==> (#[trigger] answers[j]) is Ok,
    ensures
        final_stage(operations, answers, stage_at(operations, i)) == ApplyStage::Failed(
            ApplyError { role: operations[k].role, cause: answers[k]->Err_0 },
        ),
        requests(operations, answers, stage_at(operations, i)) == operations.subrange(i, k + 1),
    decreases k - i,
{
    if i < k {
        assert(answers[i] is Ok);
        apply_stops_at_first_failure(operations, answers, i + 1, k);
        assert(requests(operations, answers, stage_at(operations, i)) =~= operations.subrange(
            i,
            k + 1,
        ));
    } else {
        reveal_with_fuel(final_stage, 2);
        reveal_with_fuel(requests, 2);
        assert(requests(operations, answers, stage_at(operations, i)) =~= operations.subrange(
            i,
            k + 1,
        ));
    }
}

/// The whole application of a plan, from `Planned`: with no failure every
/// operation is asked for, in order, and the result is success.
pub proof fn apply_succeeds(operations: Seq<OperationView>, answers: Seq<Result<(), DeviceError>>)
    requires
        operations.len() <= usize::MAX,
        answers.len() == operations.len(),
        forall|k: int| 0 <= k < operations.len() ==> (#[trigger] answers[k]) is Ok,
    ensures
        final_stage(operations, answers, ApplyStage::Planned) == ApplyStage::Applied,
        result_of(final_stage(operations, answers, ApplyStage::Planned)) == Ok::<(), ApplyError>(()),
        requests(operations, answers, ApplyStage::Planned) == operations,
{
    apply_without_failure(operations, answers, 0);
    assert(operations.skip(0) =~= operations);
}

/// The whole application of a plan, from `Planned`: when the operation at
/// `k` is the first to fail, the result is an error with its role and the
/// cause, and the operations after `k` are never asked for.
pub proof fn apply_fails_fast(
    operations: Seq<OperationView>,
    answers: Seq<Result<(), DeviceError>>,
    k: int,
)
    requires
        operations.len() <= usize::MAX,
        answers.len() == operations.len(),
        0 <= k < operations.len(),
        answers[k] is Err,
        forall|j: int| 0 <= j < k ==> (#[trigger] answers[j]) is Ok,
    ensures
        result_of(final_stage(operations, answers, ApplyStage::Planned)) == Err::<(), ApplyError>(
            ApplyError { role: operations[k].role, cause: answers[k]->Err_0 },
        ),
        requests(operations, answers, ApplyStage::Planned) == operations.take(k + 1),
        requests(operations, answers, ApplyStage::Planned).len() == k + 1,
{
    apply_stops_at_first_failure(operations, answers, 0, k);
    assert(operations.subrange(0, k + 1) =~= operations.take(k + 1));
}

/// An application always ends, in `Applied` or in `Failed`, and there
/// `apply` says to stop, with the result of that stage.
pub proof fn apply_ends_with_its_result(
    operations: Seq<OperationView>,
    answers: Seq<Result<(), DeviceError>>,
    stage: ApplyStage,
)
    requires
        operations.len() <= usize::MAX,
        answers.len() == operations.len(),
    ensures
        final_stage(operations, answers, stage) is Applied || final_stage(
            operations,
            answers,
            stage,
        ) is Failed,
        action_in(operations, final_stage(operations, answers, stage)) == ApplyActionView::Stop(
            result_of(final_stage(operations, answers, stage)),
        ),
    decreases steps_left(operations, stage),
{
    match stage {
        ApplyStage::Planned => {
            apply_ends_with_its_result(
                operations,
                answers,
                next_stage(operations, stage, ApplyEvent::Start),
            );
        },
        ApplyStage::Applying(i) => {
            if i < operations.len() {
                apply_ends_with_its_result(
                    operations,
                    answers,
                    next_stage(operations, stage, event_of(answers[i as int])),
                );
            }
        },
        _ => {},
    }
}

/// After a failure nothing is asked of the device directory again: `Failed`
/// is final, whatever is reported, and its action is to stop with the error.
pub proof fn failed_is_final(
    operations: Seq<OperationView>,
    error: ApplyError,
    event: ApplyEvent,
)
    ensures
        next_stage(operations, ApplyStage::Failed(error), event) == ApplyStage::Failed(error),
        action_in(operations, ApplyStage::Failed(error)) == ApplyActionView::Stop(Err(error)),
{
}

/// A plan that switches the output and then the input, where switching the
/// output fails: the result names the output role, and the input device is
/// never asked for.
pub proof fn output_failure_spares_input(
    operations: Seq<OperationView>,
    answers: Seq<Result<(), DeviceError>>,
)
    requires
        operations.len() == 2,
        answers.len() == 2,
        operations[0].role == Role::Output,
        operations[1].role == Role::Input,
        answers[0] is Err,
    ensures
        result_of(final_stage(operations, answers, ApplyStage::Planned)) == Err::<(), ApplyError>(
            ApplyError { role: Role::Output, cause: answers[0]->Err_0 },
        ),
        requests(operations, answers, ApplyStage::Planned) == seq![operations[0]],
        forall|i: int|
            0 <= i < requests(operations, answers, ApplyStage::Planned).len() ==> (
            #[trigger] requests(operations, answers, ApplyStage::Planned)[i]).role != Role::Input,
{
    apply_fails_fast(operations, answers, 0);
    assert(operations.take(1) =~= seq![operations[0]]);
}

} // verus!

//! Applying a plan, one operation at a time.
//!
//! The library does not switch devices itself. It decides what is to be done
//! next: `apply` takes the stage that an application has reached and what
//! the device directory answered last, and gives the next stage together with
//! the next thing to do. The caller carries that out and comes back with the
//! answer.

use vstd::prelude::*;
use vstd::string::StringExecFns;
use crate::device::{DeviceError, Role};
use crate::differ::{Operation, OperationView};
use crate::plan::ApplyPlan;

verus! {

/// An operation of a plan failed.
#[derive(Clone, Copy, Debug, PartialEq, Eq, Structural)]
pub struct ApplyError {
    /// The role whose device could not be switched.
    pub role: Role,
    /// What the device directory answered.
    pub cause: DeviceError,
}

impl ApplyError {
    /// The error in words: the role, then the cause.
    pub open spec fn description(self) -> Seq<char> {
        "failed to apply "@ + self.role.label_spec() + ": "@ + self.cause.description()
    }

    /// Writes the error in words.
    pub fn describe(&self) -> (s: String)
        ensures
            s@ == self.description(),
    {
        let mut s = String::from_str("failed to apply ");
        s.append(self.role.label());
        s.append(": ");
        let why = self.cause.describe();
        s.append(why.as_str());
        s
    }
}

/// How far the application of a plan has come.
#[derive(Clone, Copy, Debug, PartialEq, Eq, Structural)]
pub enum ApplyStage {
    /// Nothing has been asked of the device directory yet.
    Planned,
    /// The operation at this position of the plan has been asked for, and
    /// all before it succeeded.
    Applying(usize),
    /// Every operation of the plan succeeded.
    Applied,
    /// An operation failed, and none after it was asked for.
    Failed(ApplyError),
}

/// What the caller reports to `apply`.
#[derive(Clone, Copy, Debug, PartialEq, Eq, Structural)]
pub enum ApplyEvent {
    /// Nothing to report: no operation has been carried out since the last
    /// call.
    Start,
    /// The device directory carried out the operation that was asked for.
    Succeeded,
    /// The device directory failed to carry out the operation that was asked
    /// for.
    Rejected(DeviceError),
}

/// What the caller has to do next.
#[derive(Debug, PartialEq, Eq)]
pub enum ApplyAction {
    /// Ask the device directory to carry out this operation, then report how
    /// it went.
    Switch(Operation),
    /// Stop: the application has ended with this result.
    Stop(Result<(), ApplyError>),
}

/// What an `ApplyAction` holds, with the operation by its view.
pub enum ApplyActionView {
    Switch(OperationView),
    Stop(Result<(), ApplyError>),
}

impl View for ApplyAction {
    type V = ApplyActionView;

    open spec fn view(&self) -> ApplyActionView {
        match self {
            ApplyAction::Switch(op) => ApplyActionView::Switch(op@),
            ApplyAction::Stop(r) => ApplyActionView::Stop(*r),
        }
    }
}

/// The stage in which the operation at position `i` is asked for, or
/// `Applied` if the plan has no such operation.
pub open spec fn stage_at(operations: Seq<OperationView>, i: int) -> ApplyStage {
    if 0 <= i < operations.len() {
        ApplyStage::Applying(i as usize)
    } else {
        ApplyStage::Applied
    }
}

/// The stage that follows `stage` when `event` is reported.
///
/// From `Planned` the first operation is asked for. While an operation is
/// asked for, success leads to the next one and failure to `Failed`, with
/// the role of the operation and the cause; `Start` changes nothing.
/// `Applied` and `Failed` are final.
pub open spec fn next_stage(
    operations: Seq<OperationView>,
    stage: ApplyStage,
    event: ApplyEvent,
) -> ApplyStage {
    match stage {
        ApplyStage::Planned => stage_at(operations, 0),
        ApplyStage::Applying(i) => if i < operations.len() {
            match event {
                ApplyEvent::Start => stage,
                ApplyEvent::Succeeded => stage_at(operations, i + 1),
                ApplyEvent::Rejected(cause) => ApplyStage::Failed(
                    ApplyError { role: operations[i as int].role, cause },
                ),
            }
        } else {
            ApplyStage::Applied
        },
        ApplyStage::Applied => ApplyStage::Applied,
        ApplyStage::Failed(e) => ApplyStage::Failed(e),
    }
}

/// What is to be done when the operation at position `i` is next: to ask for
/// it, or to stop if the plan has no such operation.
pub open spec fn action_at(operations: Seq<OperationView>, i: int) -> ApplyActionView {
    if 0 <= i < operations.len() {
        ApplyActionView::Switch(operations[i])
    } else {
        ApplyActionView::Stop(Ok(()))
    }
}

/// What is to be done in `stage`. (In `Planned`, which `apply` never
/// returns, the first operation is next.)
pub open spec fn action_in(operations: Seq<OperationView>, stage: ApplyStage) -> ApplyActionView {
    match stage {
        ApplyStage::Planned => action_at(operations, 0),
        ApplyStage::Applying(i) => action_at(operations, i as int),
        ApplyStage::Applied => ApplyActionView::Stop(Ok(())),
        ApplyStage::Failed(e) => ApplyActionView::Stop(Err(e)),
    }
}

/// How an answer of the device directory is reported to `apply`.
pub open spec fn event_of(answer: Result<(), DeviceError>) -> ApplyEvent {
    match answer {
        Ok(_) => ApplyEvent::Succeeded,
        Err(cause) => ApplyEvent::Rejected(cause),
    }
}

/// How many steps an application in `stage` can still take.
pub open spec fn steps_left(operations: Seq<OperationView>, stage: ApplyStage) -> nat {
    match stage {
        ApplyStage::Planned => operations.len() + 1,
        ApplyStage::Applying(i) => if i < operations.len() {
            (operations.len() - i) as nat
        } else {
            0
        },
        ApplyStage::Applied => 0,
        ApplyStage::Failed(_) => 0,
    }
}

/// The stage in which an application ends that is in `stage` now, when the
/// device directory answers the operation at position `k`, should it be
/// asked for, with `answers[k]`.
pub open spec fn final_stage(
    operations: Seq<OperationView>,
    answers: Seq<Result<(), DeviceError>>,
    stage: ApplyStage,
) -> ApplyStage
    recommends
        answers.len() == operations.len(),
    decreases steps_left(operations, stage),
    when operations.len() <= usize::MAX
{
    match stage {
        ApplyStage::Planned => final_stage(
            operations,
            answers,
            next_stage(operations, stage, ApplyEvent::Start),
        ),
        ApplyStage::Applying(i) => if i < operations.len() {
            final_stage(
                operations,
                answers,
                next_stage(operations, stage, event_of(answers[i as int])),
            )
        } else {
            ApplyStage::Applied
        },
        ApplyStage::Applied => stage,
        ApplyStage::Failed(_) => stage,
    }
}

/// The operations that `apply` asks for, in order, from `stage` on until the
/// application ends; that of `stage` itself is the first.
pub open spec fn requests(
    operations: Seq<OperationView>,
    answers: Seq<Result<(), DeviceError>>,
    stage: ApplyStage,
) -> Seq<OperationView>
    recommends
        answers.len() == operations.len(),
    decreases steps_left(operations, stage),
    when operations.len() <= usize::MAX
{
    match stage {
        ApplyStage::Planned => requests(
            operations,
            answers,
            next_stage(operations, stage, ApplyEvent::Start),
        ),
        ApplyStage::Applying(i) => match action_in(operations, stage) {
            ApplyActionView::Switch(operation) => seq![operation] + requests(
                operations,
                answers,
                next_stage(operations, stage, event_of(answers[i as int])),
            ),
            ApplyActionView::Stop(_) => Seq::empty(),
        },
        ApplyStage::Applied => Seq::empty(),
        ApplyStage::Failed(_) => Seq::empty(),
    }
}

/// The result of an application that has ended in `stage`: an error if it
/// ended in `Failed`, success otherwise.
pub open spec fn result_of(stage: ApplyStage) -> Result<(), ApplyError> {
    match stage {
        ApplyStage::Failed(e) => Err(e),
        _ => Ok(()),
    }
}

fn enter(plan: &ApplyPlan, i: usize) -> (r: (ApplyStage, ApplyAction))
    ensures
        r.0 == stage_at(plan@.operations, i as int),
        r.1@ == action_in(plan@.operations, r.0),
{
    if i < plan.operations.len() {
        (ApplyStage::Applying(i), ApplyAction::Switch(plan.operations[i].clone()))
    } else {
        (ApplyStage::Applied, ApplyAction::Stop(Ok(())))
    }
}

/// Takes the application of `plan` one step further: from `stage`, on hearing
/// `event`, to the stage returned, in which the action returned is to be
/// done.
///
/// The operations are asked for in the order of the plan, each only after
/// the one before it succeeded. After a failure nothing more is asked for.
pub fn apply(plan: &ApplyPlan, stage: ApplyStage, event: ApplyEvent) -> (r: (
    ApplyStage,
    ApplyAction,
))
    ensures
        r.0 == next_stage(plan@.operations, stage, event),
        r.1@ == action_in(plan@.operations, r.0),
        !(r.0 is Planned),
{
    match stage {
        ApplyStage::Planned => enter(plan, 0),
        ApplyStage::Applying(i) => {
            if i < plan.operations.len() {
                match event {
                    ApplyEvent::Start => enter(plan, i),
                    ApplyEvent::Succeeded => enter(plan, i + 1),
                    ApplyEvent::Rejected(cause) => {
                        let e = ApplyError { role: plan.operations[i].role, cause };
                        (ApplyStage::Failed(e), ApplyAction::Stop(Err(e)))
                    },
                }
            } else {
                (ApplyStage::Applied, ApplyAction::Stop(Ok(())))
            }
        },
        ApplyStage::Applied => (ApplyStage::Applied, ApplyAction::Stop(Ok(()))),
        ApplyStage::Failed(e) => (ApplyStage::Failed(e), ApplyAction::Stop(Err(e))),
    }
}

} // verus!

use quies::{
    apply, apply_plan, ApplyAction, ApplyError, ApplyEvent, ApplyPlan, ApplyStage, AudioState,
    DeviceError, Operation, Profile, Role,
};

fn state(output: Option<&str>, input: Option<&str>) -> AudioState {
    AudioState {
        default_output: output.map(|s| s.to_string()),
        default_input: input.map(|s| s.to_string()),
    }
}

fn plan(current: AudioState, target: AudioState) -> ApplyPlan {
    let profile = Profile { version: 1, name: "p".to_string(), state: target, note: None };
    apply_plan(&profile, current, vec![])
}

fn plan_of(operations: Vec<Operation>) -> ApplyPlan {
    ApplyPlan {
        profile_name: "p".to_string(),
        current: state(None, None),
        target: state(None, None),
        operations,
        descriptions: vec![],
        notes: vec![],
    }
}

fn op(role: Role, target: &str) -> Operation {
    Operation { role, target: target.to_string() }
}

/// Applies `plan` to a directory that answers each request with what
/// `answer` gives; returns the requests made and the result.
fn run(
    plan: &ApplyPlan,
    answer: impl Fn(&Operation) -> Result<(), DeviceError>,
) -> (Vec<Operation>, Result<(), ApplyError>) {
    let mut requests = Vec::new();
    let (mut stage, mut action) = apply(plan, ApplyStage::Planned, ApplyEvent::Start);
    for _ in 0..1000 {
        match action {
            ApplyAction::Stop(result) => {
                assert!(matches!(stage, ApplyStage::Applied | ApplyStage::Failed(_)));
                return (requests, result);
            }
            ApplyAction::Switch(operation) => {
                let event = match answer(&operation) {
                    Ok(()) => ApplyEvent::Succeeded,
                    Err(cause) => ApplyEvent::Rejected(cause),
                };
                requests.push(operation);
                let next = apply(plan, stage, event);
                stage = next.0;
                action = next.1;
            }
        }
    }
    panic!("the application did not end");
}

#[test]
fn empty_plan_asks_for_nothing() {
    let s = state(Some("UID-A"), Some("UID-B"));
    let p = plan(s.clone(), s);
    assert_eq!(
        apply(&p, ApplyStage::Planned, ApplyEvent::Start),
        (ApplyStage::Applied, ApplyAction::Stop(Ok(())))
    );
    let (requests, result) = run(&p, |_| panic!("nothing may be asked for"));
    assert!(requests.is_empty());
    assert_eq!(result, Ok(()));
}

#[test]
fn operations_are_asked_for_in_order() {
    let p = plan(state(None, None), state(Some("UID-A"), Some("UID-B")));
    let (requests, result) = run(&p, |_| Ok(()));
    assert_eq!(requests, vec![op(Role::Output, "UID-A"), op(Role::Input, "UID-B")]);
    assert_eq!(result, Ok(()));
}

#[test]
fn stages_of_a_successful_application() {
    let p = plan(state(None, None), state(Some("UID-A"), Some("UID-B")));
    assert_eq!(
        apply(&p, ApplyStage::Planned, ApplyEvent::Start),
        (ApplyStage::Applying(0), ApplyAction::Switch(op(Role::Output, "UID-A")))
    );
    assert_eq!(
        apply(&p, ApplyStage::Applying(0), ApplyEvent::Succeeded),
        (ApplyStage::Applying(1), ApplyAction::Switch(op(Role::Input, "UID-B")))
    );
    assert_eq!(
        apply(&p, ApplyStage::Applying(1), ApplyEvent::Succeeded),
        (ApplyStage::Applied, ApplyAction::Stop(Ok(())))
    );
}

#[test]
fn output_failure_stops_before_the_input() {
    let p = plan(state(None, None), state(Some("UID-A"), Some("UID-B")));
    let (requests, result) = run(&p, |o| match o.role {
        Role::Output => Err(DeviceError::SystemRejected(-50)),
        Role::Input => panic!("the input may not be asked for"),
    });
    assert_eq!(requests, vec![op(Role::Output, "UID-A")]);
    assert_eq!(
        result,
        Err(ApplyError { role: Role::Output, cause: DeviceError::SystemRejected(-50) })
    );
}

#[test]
fn input_failure_comes_after_the_output_succeeded() {
    let p = plan(state(None, None), state(Some("UID-A"), Some("UID-B")));
    let (requests, result) = run(&p, |o| match o.role {
        Role::Output => Ok(()),
        Role::Input => Err(DeviceError::NotFound),
    });
    assert_eq!(requests.len(), 2);
    assert_eq!(result, Err(ApplyError { role: Role::Input, cause: DeviceError::NotFound }));
}

#[test]
fn failure_is_final() {
    let p = plan(state(None, None), state(Some("UID-A"), Some("UID-B")));
    let e = ApplyError { role: Role::Output, cause: DeviceError::NotFound };
    assert_eq!(
        apply(&p, ApplyStage::Applying(0), ApplyEvent::Rejected(DeviceError::NotFound)),
        (ApplyStage::Failed(e), ApplyAction::Stop(Err(e)))
    );
    for event in [
        ApplyEvent::Start,
        ApplyEvent::Succeeded,
        ApplyEvent::Rejected(DeviceError::Unavailable),
    ] {
        assert_eq!(
            apply(&p, ApplyStage::Failed(e), event),
            (ApplyStage::Failed(e), ApplyAction::Stop(Err(e)))
        );
    }
}

#[test]
fn applied_is_final() {
    let p = plan(state(None, None), state(Some("UID-A"), None));
    for event in [
        ApplyEvent::Start,
        ApplyEvent::Succeeded,
        ApplyEvent::Rejected(DeviceError::Unavailable),
    ] {
        assert_eq!(
            apply(&p, ApplyStage::Applied, event),
            (ApplyStage::Applied, ApplyAction::Stop(Ok(())))
        );
    }
}

#[test]
fn nothing_to_report_repeats_the_request() {
    let p = plan(state(None, None), state(Some("UID-A"), Some("UID-B")));
    assert_eq!(
        apply(&p, ApplyStage::Applying(1), ApplyEvent::Start),
        (ApplyStage::Applying(1), ApplyAction::Switch(op(Role::Input, "UID-B")))
    );
}

#[test]
fn planned_starts_whatever_is_reported() {
    let p = plan(state(None, None), state(None, Some("UID-B")));
    for event in [
        ApplyEvent::Start,
        ApplyEvent::Succeeded,
        ApplyEvent::Rejected(DeviceError::Unavailable),
    ] {
        assert_eq!(
            apply(&p, ApplyStage::Planned, event),
            (ApplyStage::Applying(0), ApplyAction::Switch(op(Role::Input, "UID-B")))
        );
    }
}

#[test]
fn a_position_past_the_plan_counts_as_applied() {
    let p = plan(state(None, None), state(Some("UID-A"), None));
    for event in [ApplyEvent::Start, ApplyEvent::Succeeded, ApplyEvent::Rejected(DeviceError::NotFound)] {
        assert_eq!(
            apply(&p, ApplyStage::Applying(1), event),
            (ApplyStage::Applied, ApplyAction::Stop(Ok(())))
        );
        assert_eq!(
            apply(&p, ApplyStage::Applying(usize::MAX), event),
            (ApplyStage::Applied, ApplyAction::Stop(Ok(())))
        );
    }
}

#[test]
fn a_longer_plan_stops_at_the_first_failure() {
    let operations: Vec<Operation> = (0..5)
        .map(|i| op(if i % 2 == 0 { Role::Output } else { Role::Input }, &format!("D{i}")))
        .collect();
    let p = plan_of(operations.clone());
    let (requests, result) = run(&p, |o| {
        if o.target == "D3" {
            Err(DeviceError::SystemRejected(7))
        } else {
            Ok(())
        }
    });
    assert_eq!(requests, operations[..4].to_vec());
    assert_eq!(
        result,
        Err(ApplyError { role: Role::Input, cause: DeviceError::SystemRejected(7) })
    );
}

#[test]
fn apply_error_in_words() {
    let e = ApplyError { role: Role::Output, cause: DeviceError::SystemRejected(-50) };
    assert_eq!(
        e.describe(),
        "failed to apply default_output: rejected by the system (OSStatus=-50)"
    );
    let e = ApplyError { role: Role::Input, cause: DeviceError::NotFound };
    assert_eq!(e.describe(), "failed to apply default_input: device not found");
}

use quies::{
    apply_plan, describe_change, diff_audio_state, display_identity, dry_run_apply, render_plan,
    same_identity, ApplyPlan, AudioState, Operation, Profile, Role,
};

fn state(output: Option<&str>, input: Option<&str>) -> AudioState {
    AudioState {
        default_output: output.map(|s| s.to_string()),
        default_input: input.map(|s| s.to_string()),
    }
}

fn op(role: Role, target: &str) -> Operation {
    Operation { role, target: target.to_string() }
}

fn profile(name: &str, target: AudioState) -> Profile {
    Profile { version: 1, name: name.to_string(), state: target, note: None }
}

#[test]
fn equal_states_need_no_operation() {
    let s = state(Some("UID-A"), Some("UID-B"));
    let (operations, descriptions) = diff_audio_state(&s, &s.clone());
    assert!(operations.is_empty());
    assert!(descriptions.is_empty());
}

#[test]
fn unknown_states_need_no_operation() {
    let s = state(None, None);
    assert_eq!(diff_audio_state(&s, &s), (vec![], vec![]));
}

#[test]
fn both_roles_change_output_first() {
    let current = state(Some("UID-A"), Some("UID-B"));
    let target = state(Some("UID-C"), Some("UID-D"));
    let (operations, descriptions) = diff_audio_state(&current, &target);
    assert_eq!(operations, vec![op(Role::Output, "UID-C"), op(Role::Input, "UID-D")]);
    assert_eq!(
        descriptions,
        vec![
            "default_output: UID-A -> UID-C".to_string(),
            "default_input: UID-B -> UID-D".to_string(),
        ]
    );
}

#[test]
fn only_the_role_that_differs_changes() {
    let current = state(Some("UID-A"), Some("UID-B"));
    let (operations, descriptions) =
        diff_audio_state(&current, &state(Some("UID-A"), Some("UID-D")));
    assert_eq!(operations, vec![op(Role::Input, "UID-D")]);
    assert_eq!(descriptions, vec!["default_input: UID-B -> UID-D".to_string()]);
    let (operations, descriptions) =
        diff_audio_state(&current, &state(Some("UID-C"), Some("UID-B")));
    assert_eq!(operations, vec![op(Role::Output, "UID-C")]);
    assert_eq!(descriptions, vec!["default_output: UID-A -> UID-C".to_string()]);
}

#[test]
fn unknown_target_is_never_aimed_for() {
    for current in [state(None, None), state(Some("UID-A"), Some("UID-B")), state(Some(""), None)] {
        let (operations, descriptions) = diff_audio_state(&current, &state(None, None));
        assert!(operations.is_empty());
        assert!(descriptions.is_empty());
        let (operations, _) = diff_audio_state(&current, &state(None, Some("UID-Z")));
        assert!(operations.iter().all(|o| o.role != Role::Output));
        let (operations, _) = diff_audio_state(&current, &state(Some("UID-Z"), None));
        assert!(operations.iter().all(|o| o.role != Role::Input));
    }
}

#[test]
fn unknown_current_is_switched_and_shown_as_unknown() {
    let (operations, descriptions) =
        diff_audio_state(&state(None, None), &state(Some("UID-A"), Some("UID-B")));
    assert_eq!(operations, vec![op(Role::Output, "UID-A"), op(Role::Input, "UID-B")]);
    assert_eq!(
        descriptions,
        vec![
            "default_output: (unknown) -> UID-A".to_string(),
            "default_input: (unknown) -> UID-B".to_string(),
        ]
    );
}

#[test]
fn an_empty_identity_is_not_unknown() {
    let (operations, descriptions) = diff_audio_state(&state(None, None), &state(Some(""), None));
    assert_eq!(operations, vec![op(Role::Output, "")]);
    assert_eq!(descriptions, vec!["default_output: (unknown) -> ".to_string()]);
    let (operations, _) = diff_audio_state(&state(Some(""), None), &state(Some(""), None));
    assert!(operations.is_empty());
    assert!(!same_identity(&Some(String::new()), &None));
}

#[test]
fn diff_twice_gives_the_same() {
    let current = state(Some("UID-A"), None);
    let target = state(Some("UID-C"), Some("UID-D"));
    let first = diff_audio_state(&current, &target);
    let second = diff_audio_state(&current.clone(), &target.clone());
    assert_eq!(first, second);
    assert_eq!(first.0[0].role, Role::Output);
    assert_eq!(first.0[1].role, Role::Input);
}

#[test]
fn identities_compare_by_content() {
    assert!(same_identity(&Some("a".to_string()), &Some("a".to_string())));
    assert!(!same_identity(&Some("a".to_string()), &Some("b".to_string())));
    assert!(same_identity(&None, &None));
    assert!(!same_identity(&None, &Some("a".to_string())));
}

#[test]
fn display_marks_the_unknown() {
    assert_eq!(display_identity(&None), "(unknown)");
    assert_eq!(display_identity(&Some("UID-A".to_string())), "UID-A");
    assert_eq!(display_identity(&Some(String::new())), "");
}

#[test]
fn describes_a_change() {
    assert_eq!(
        describe_change(Role::Input, &None, &Some("UID-B".to_string())),
        "default_input: (unknown) -> UID-B"
    );
    assert_eq!(Role::Output.label(), "default_output");
    assert_eq!(Role::Input.label(), "default_input");
}

#[test]
fn plan_carries_name_states_changes_and_notes() {
    let current = state(Some("UID-A"), None);
    let target = state(Some("UID-C"), Some("UID-D"));
    let plan = apply_plan(&profile("desk", target.clone()), current.clone(), vec!["n1".to_string()]);
    assert_eq!(
        plan,
        ApplyPlan {
            profile_name: "desk".to_string(),
            current,
            target,
            operations: vec![op(Role::Output, "UID-C"), op(Role::Input, "UID-D")],
            descriptions: vec![
                "default_output: UID-A -> UID-C".to_string(),
                "default_input: (unknown) -> UID-D".to_string(),
            ],
            notes: vec!["n1".to_string()],
        }
    );
    assert_eq!(plan.clone(), plan);
}

#[test]
fn plan_for_a_satisfied_target_has_no_operations() {
    let s = state(Some("UID-A"), Some("UID-B"));
    let plan = apply_plan(&profile("same", s.clone()), s, vec![]);
    assert!(plan.operations.is_empty());
    assert!(plan.descriptions.is_empty());
}

#[test]
fn report_without_changes() {
    let plan = apply_plan(
        &profile("quiet", state(Some("UID-A"), None)),
        state(Some("UID-A"), None),
        vec![],
    );
    assert_eq!(
        render_plan(&plan),
        "profile: quiet\n\
         mode: dry-run\n\
         state:\n\
         \x20 default_output: UID-A -> UID-A\n\
         \x20 default_input: (unknown) -> (unknown)\n\
         changes: (none or unknown)\n"
    );
}

#[test]
fn report_shows_both_roles_changes_and_notes() {
    let plan = apply_plan(
        &profile("desk", state(Some("UID-C"), Some("UID-B"))),
        state(None, Some("UID-B")),
        vec![
            "failed to read default_output: device unavailable".to_string(),
            "second".to_string(),
        ],
    );
    assert_eq!(
        render_plan(&plan),
        "profile: desk\n\
         mode: dry-run\n\
         state:\n\
         \x20 default_output: (unknown) -> UID-C\n\
         \x20 default_input: UID-B -> UID-B\n\
         changes:\n\
         \x20 - default_output: (unknown) -> UID-C\n\
         notes:\n\
         \x20 - failed to read default_output: device unavailable\n\
         \x20 - second\n"
    );
}

#[test]
fn report_lists_two_changes_in_order() {
    let plan = apply_plan(
        &profile("p", state(Some("O2"), Some("I2"))),
        state(Some("O1"), Some("I1")),
        vec![],
    );
    let text = render_plan(&plan);
    assert!(text.contains("changes:\n  - default_output: O1 -> O2\n  - default_input: I1 -> I2\n"));
    assert!(!text.contains("notes:"));
}

#[test]
fn report_follows_the_descriptions_of_the_plan() {
    let plan = ApplyPlan {
        profile_name: String::new(),
        current: state(None, None),
        target: state(None, None),
        operations: vec![],
        descriptions: vec!["by hand".to_string()],
        notes: vec![],
    };
    assert_eq!(
        render_plan(&plan),
        "profile: \nmode: dry-run\nstate:\n  default_output: (unknown) -> (unknown)\n  \
         default_input: (unknown) -> (unknown)\nchanges:\n  - by hand\n"
    );
}

#[test]
fn dry_run_is_the_report_on_the_plan() {
    let p = profile("quiet", state(Some("UID-A"), Some("UID-B")));
    let current = state(Some("UID-X"), Some("UID-B"));
    let notes = vec!["note".to_string()];
    let expected = render_plan(&apply_plan(&p, current.clone(), notes.clone()));
    assert_eq!(dry_run_apply(&p, current, notes), expected);
    assert!(expected.contains("  - default_output: UID-X -> UID-A\n"));
}

use nice_glfw::builder::WindowBuilder;
use nice_glfw::hints::Hint;
use nice_glfw::search::run_scripted;

fn two_candidate_plan() -> nice_glfw::search::BuildPlan {
    WindowBuilder::new()
        .common_hints(&[Hint::ContextNoError(true)])
        .try_hints(&[Hint::ContextVersion(4, 5)])
        .try_hints(&[Hint::ContextVersion(2, 0)])
        .create()
        .plan
}

#[test]
fn attempts_prepend_common_hints_in_order() {
    let plan = two_candidate_plan();
    assert_eq!(
        plan.attempts,
        vec![
            vec![Hint::ContextNoError(true), Hint::ContextVersion(4, 5)],
            vec![Hint::ContextNoError(true), Hint::ContextVersion(2, 0)],
        ]
    );
}

#[test]
fn every_attempt_layers_all_common_hints_before_the_candidate() {
    let plan = WindowBuilder::new()
        .common_hints(&[Hint::ContextNoError(true)])
        .common_hints(&[Hint::RefreshRate(Some(60))])
        .try_hints(&[Hint::ContextVersion(4, 5), Hint::OpenGlForwardCompat(true)])
        .try_hints(&[Hint::ContextVersion(2, 0)])
        .create()
        .plan;
    assert_eq!(
        plan.attempts,
        vec![
            vec![
                Hint::ContextNoError(true),
                Hint::RefreshRate(Some(60)),
                Hint::ContextVersion(4, 5),
                Hint::OpenGlForwardCompat(true),
            ],
            vec![
                Hint::ContextNoError(true),
                Hint::RefreshRate(Some(60)),
                Hint::ContextVersion(2, 0),
            ],
        ]
    );
}

#[test]
fn all_candidates_tried_in_order_when_every_attempt_fails() {
    let plan = two_candidate_plan();
    let expected = plan.attempts.clone();
    let log = run_scripted(plan, &vec![false, false]);
    assert_eq!(log.resets, 2);
    assert_eq!(log.applied, expected);
    assert_eq!(log.created, None);
    assert_eq!(log.constraint_applied, None);
}

#[test]
fn search_stops_at_the_first_success() {
    let plan = WindowBuilder::new()
        .try_hints(&[Hint::ContextVersion(4, 5)])
        .try_hints(&[Hint::ContextVersion(3, 2)])
        .try_hints(&[Hint::ContextVersion(2, 0)])
        .create()
        .plan;
    let expected_first_two = vec![plan.attempts[0].clone(), plan.attempts[1].clone()];
    let log = run_scripted(plan, &vec![false, true, true]);
    assert_eq!(log.resets, 2);
    assert_eq!(log.applied, expected_first_two);
    assert_eq!(log.created, Some(1));
}

#[test]
fn first_candidate_success_makes_one_attempt() {
    let plan = two_candidate_plan();
    let log = run_scripted(plan, &vec![true, false]);
    assert_eq!(log.resets, 1);
    assert_eq!(log.applied.len(), 1);
    assert_eq!(log.created, Some(0));
}

#[test]
fn zero_candidates_attempt_nothing_and_yield_nothing() {
    let session = WindowBuilder::new()
        .common_hints(&[Hint::ContextVersion(3, 2)])
        .create();
    assert_eq!(session.current_attempt(), None);
    let log = run_scripted(session.plan, &Vec::new());
    assert_eq!(log.resets, 0);
    assert_eq!(log.applied, Vec::<Vec<Hint>>::new());
    assert_eq!(log.created, None);
    assert_eq!(log.constraint_applied, None);
}

#[test]
fn aspect_ratio_applied_exactly_on_success_when_configured() {
    let with_ratio = WindowBuilder::new()
        .aspect_ratio(16, 9)
        .try_hints(&[Hint::ContextVersion(2, 0)])
        .create()
        .plan;
    let log = run_scripted(with_ratio, &vec![true]);
    assert_eq!(log.constraint_applied, Some((16, 9)));

    let with_ratio_failing = WindowBuilder::new()
        .aspect_ratio(16, 9)
        .try_hints(&[Hint::ContextVersion(2, 0)])
        .create()
        .plan;
    let log = run_scripted(with_ratio_failing, &vec![false]);
    assert_eq!(log.constraint_applied, None);

    let without_ratio = WindowBuilder::new()
        .try_hints(&[Hint::ContextVersion(2, 0)])
        .create()
        .plan;
    let log = run_scripted(without_ratio, &vec![true]);
    assert_eq!(log.constraint_applied, None);
}

#[test]
fn scenario_second_candidate_succeeds() {
    let plan = two_candidate_plan();
    let expected = plan.attempts.clone();
    let log = run_scripted(plan, &vec![false, true]);
    assert_eq!(log.resets, 2);
    assert_eq!(log.applied, expected);
    assert_eq!(log.created, Some(1));
}

#[test]
fn session_hands_out_attempts_one_failure_at_a_time() {
    let mut session = WindowBuilder::new()
        .aspect_ratio(4, 3)
        .try_hints(&[Hint::ContextVersion(4, 5)])
        .try_hints(&[Hint::ContextVersion(2, 0)])
        .create();
    assert_eq!(session.attempts_tried(), 0);
    assert!(!session.finished());
    assert_eq!(
        session.current_attempt(),
        Some(&vec![Hint::ContextVersion(4, 5)])
    );
    session.record_failure();
    assert_eq!(session.attempts_tried(), 1);
    assert_eq!(
        session.current_attempt(),
        Some(&vec![Hint::ContextVersion(2, 0)])
    );
    let constraint = session.record_success();
    assert_eq!(constraint, Some((4, 3)));
    assert_eq!(session.attempts_tried(), 2);
    assert_eq!(session.succeeded_at(), Some(1));
    assert!(session.finished());
    assert_eq!(session.current_attempt(), None);
}

#[test]
fn session_exhausts_after_every_candidate_fails() {
    let mut session = WindowBuilder::new()
        .try_hints(&[Hint::ContextVersion(4, 5)])
        .create();
    assert!(!session.finished());
    session.record_failure();
    assert!(session.finished());
    assert_eq!(session.current_attempt(), None);
    assert_eq!(session.succeeded_at(), None);
}

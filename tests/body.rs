use smoke_rust_browsertest::body::{smoke, Action, AssertionFailure, Phase, SmokeTest, Step};

fn drive(navigation: bool, outcomes: &[bool]) -> (SmokeTest, Vec<Action>) {
    let mut run = SmokeTest::new(navigation);
    let mut actions = vec![run.begin()];
    let mut next = 0;
    while let Some(Action::Perform(_)) = actions.last() {
        let ok = outcomes[next];
        next += 1;
        actions.push(run.step_finished(ok));
    }
    (run, actions)
}

#[test]
fn empty_body_passes() {
    assert_eq!(smoke(), Ok(()));
}

#[test]
fn disabled_navigation_performs_nothing() {
    let (run, actions) = drive(false, &[]);
    assert_eq!(actions, vec![Action::Report(Ok(()))]);
    assert_eq!(run.phase, Phase::Passed);
    assert_eq!(run.result(), Some(Ok(())));
}

#[test]
fn new_run_has_no_result() {
    let run = SmokeTest::new(true);
    assert_eq!(run.phase, Phase::NotRun);
    assert_eq!(run.result(), None);
}

#[test]
fn running_step_has_no_result() {
    let mut run = SmokeTest::new(true);
    run.begin();
    assert_eq!(run.phase, Phase::Running(Step::StartServer));
    assert_eq!(run.result(), None);
}

#[test]
fn all_steps_succeed() {
    let (run, actions) = drive(true, &[true, true, true]);
    assert_eq!(
        actions,
        vec![
            Action::Perform(Step::StartServer),
            Action::Perform(Step::BuildUrl),
            Action::Perform(Step::Navigate),
            Action::Report(Ok(())),
        ]
    );
    assert_eq!(run.result(), Some(Ok(())));
}

#[test]
fn server_fails_to_start() {
    let (run, actions) = drive(true, &[false]);
    let failure = AssertionFailure { step: Step::StartServer };
    assert_eq!(
        actions,
        vec![Action::Perform(Step::StartServer), Action::Report(Err(failure))]
    );
    assert!(!actions.contains(&Action::Perform(Step::Navigate)));
    assert_eq!(run.phase, Phase::Failed(Step::StartServer));
    assert_eq!(run.result(), Some(Err(failure)));
    assert_eq!(failure.message(), "embedded test server failed to start");
}

#[test]
fn url_not_well_formed() {
    let (run, actions) = drive(true, &[true, false]);
    let failure = AssertionFailure { step: Step::BuildUrl };
    assert_eq!(
        actions,
        vec![
            Action::Perform(Step::StartServer),
            Action::Perform(Step::BuildUrl),
            Action::Report(Err(failure)),
        ]
    );
    assert_eq!(run.result(), Some(Err(failure)));
    assert_eq!(failure.message(), "test URL is not well formed");
}

#[test]
fn navigation_does_not_complete() {
    let (run, actions) = drive(true, &[true, true, false]);
    let failure = AssertionFailure { step: Step::Navigate };
    assert_eq!(actions.len(), 4);
    assert_eq!(actions[3], Action::Report(Err(failure)));
    assert_eq!(run.phase, Phase::Failed(Step::Navigate));
    assert_eq!(
        failure.message(),
        "navigation to the test URL did not complete"
    );
}

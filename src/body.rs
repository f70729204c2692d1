use vstd::prelude::*;
use vstd::string::*;

verus! {

/// One fixture operation of the navigation body, in the order they run.
#[derive(Clone, Copy, Debug, PartialEq, Eq, Structural)]
pub enum Step {
    /// Start the fixture's embedded HTTP test server.
    StartServer,
    /// Build the URL of the test resource served by that server.
    BuildUrl,
    /// Navigate the fixture's shell to that URL.
    Navigate,
}

/// The text reported when `step` fails.
pub open spec fn failure_message(step: Step) -> Seq<char> {
    match step {
        Step::StartServer => "embedded test server failed to start"@,
        Step::BuildUrl => "test URL is not well formed"@,
        Step::Navigate => "navigation to the test URL did not complete"@,
    }
}

/// The one error kind of the test: a failed assertion, naming the step that
/// failed.
#[derive(Clone, Copy, Debug, PartialEq, Eq, Structural)]
pub struct AssertionFailure {
    pub step: Step,
}

impl AssertionFailure {
    /// Human-readable text that says which step failed.
    pub fn message(&self) -> (r: String)
        ensures
            r@ == failure_message(self.step),
    {
        match self.step {
            Step::StartServer => String::from_str("embedded test server failed to start"),
            Step::BuildUrl => String::from_str("test URL is not well formed"),
            Step::Navigate => String::from_str("navigation to the test URL did not complete"),
        }
    }
}

/// Where a run of the test body stands.
#[derive(Clone, Copy, Debug, PartialEq, Eq, Structural)]
pub enum Phase {
    /// The body has not been entered.
    NotRun,
    /// The body waits for the outcome of this step.
    Running(Step),
    /// The body finished and the test passed.
    Passed,
    /// The body stopped at this step, which failed.
    Failed(Step),
}

/// What the harness is asked to do next.
#[derive(Clone, Copy, Debug, PartialEq, Eq)]
pub enum Action {
    /// Perform this fixture operation and report whether it succeeded.
    Perform(Step),
    /// Report this result of the test to the harness; the run is over.
    Report(Result<(), AssertionFailure>),
}

/// The step that follows `step` when it succeeds, if any.
pub open spec fn step_after(step: Step) -> Option<Step> {
    match step {
        Step::StartServer => Some(Step::BuildUrl),
        Step::BuildUrl => Some(Step::Navigate),
        Step::Navigate => None,
    }
}

/// One run of the smoke test body.
///
/// With navigation disabled the body performs no operation and passes. With
/// it enabled the body performs the steps in order and stops at the first
/// one that fails.
pub struct SmokeTest {
    pub navigation: bool,
    pub phase: Phase,
}

impl SmokeTest {
    /// State and action after entering the body.
    pub open spec fn begin_spec(self) -> (SmokeTest, Action) {
        if self.navigation {
            (SmokeTest { phase: Phase::Running(Step::StartServer), ..self }, Action::Perform(Step::StartServer))
        } else {
            (SmokeTest { phase: Phase::Passed, ..self }, Action::Report(Ok(())))
        }
    }

    /// State and action after the running step reported `succeeded`.
    pub open spec fn finish_spec(self, succeeded: bool) -> (SmokeTest, Action)
        recommends
            self.phase is Running,
    {
        let step = self.phase->Running_0;
        if !succeeded {
            (SmokeTest { phase: Phase::Failed(step), ..self }, Action::Report(Err(AssertionFailure { step })))
        } else {
            match step_after(step) {
                Some(next) => (SmokeTest { phase: Phase::Running(next), ..self }, Action::Perform(next)),
                None => (SmokeTest { phase: Phase::Passed, ..self }, Action::Report(Ok(()))),
            }
        }
    }

    /// State and actions after feeding `outcomes` to the running steps, one
    /// outcome per step, until the run finishes or the outcomes run out.
    pub open spec fn feed(self, outcomes: Seq<bool>) -> (SmokeTest, Seq<Action>)
        decreases outcomes.len(),
    {
        if self.phase is Running && outcomes.len() > 0 {
            let (next, a) = self.finish_spec(outcomes[0]);
            let (last, rest) = next.feed(outcomes.drop_first());
            (last, seq![a] + rest)
        } else {
            (self, Seq::empty())
        }
    }

    /// A run that has not been entered yet.
    pub fn new(navigation: bool) -> (r: SmokeTest)
        ensures
            r.navigation == navigation,
            r.phase == Phase::NotRun,
    {
        SmokeTest { navigation, phase: Phase::NotRun }
    }

    /// Enters the body and says what the harness does first.
    pub fn begin(&mut self) -> (a: Action)
        requires
            old(self).phase == Phase::NotRun,
        ensures
            (*final(self), a) == old(self).begin_spec(),
    {
        if self.navigation {
            self.phase = Phase::Running(Step::StartServer);
            Action::Perform(Step::StartServer)
        } else {
            self.phase = Phase::Passed;
            Action::Report(Ok(()))
        }
    }

    /// Takes the outcome of the running step and says what comes next.
    pub fn step_finished(&mut self, succeeded: bool) -> (a: Action)
        requires
            old(self).phase is Running,
        ensures
            (*final(self), a) == old(self).finish_spec(succeeded),
    {
        let step = match self.phase {
            Phase::Running(step) => step,
            _ => Step::StartServer,
        };
        if !succeeded {
            self.phase = Phase::Failed(step);
            return Action::Report(Err(AssertionFailure { step }));
        }
        let next = match step {
            Step::StartServer => Some(Step::BuildUrl),
            Step::BuildUrl => Some(Step::Navigate),
            Step::Navigate => None,
        };
        match next {
            Some(n) => {
                self.phase = Phase::Running(n);
                Action::Perform(n)
            },
            None => {
                self.phase = Phase::Passed;
                Action::Report(Ok(()))
            },
        }
    }

    /// The reported result once the body has finished, `None` before.
    pub fn result(&self) -> (r: Option<Result<(), AssertionFailure>>)
        ensures
            r == match self.phase {
                Phase::Passed => Some(Ok(())),
                Phase::Failed(step) => Some(Err(AssertionFailure { step })),
                _ => None,
            },
    {
        match self.phase {
            Phase::Passed => Some(Ok(())),
            Phase::Failed(step) => Some(Err(AssertionFailure { step })),
            _ => None,
        }
    }
}

/// State and actions of a whole run: the body is entered, then `outcomes`
/// answer the steps that it asks for.
pub open spec fn run(navigation: bool, outcomes: Seq<bool>) -> (SmokeTest, Seq<Action>) {
    let (entered, first) = SmokeTest { navigation, phase: Phase::NotRun }.begin_spec();
    let (last, rest) = entered.feed(outcomes);
    (last, seq![first] + rest)
}

/// With navigation disabled, the body asks for no fixture operation, passes,
/// and reports success whatever outcomes the harness would hand back.
pub proof fn lemma_disabled_body_passes(outcomes: Seq<bool>)
    ensures
        run(false, outcomes) == (SmokeTest { navigation: false, phase: Phase::Passed }, seq![
            Action::Report(Ok(())),
        ]),
{
    reveal_with_fuel(SmokeTest::feed, 2);
    assert(seq![Action::Report(Ok::<(), AssertionFailure>(()))] + Seq::<Action>::empty()
        =~= seq![Action::Report(Ok(()))]);
}

/// With navigation enabled, the body first starts the server; it builds the
/// URL only once the server started, and navigates only once the URL was
/// built. It passes exactly when all three steps succeed, and otherwise
/// reports a failure that names the first step that failed. Outcomes handed
/// back after the report are ignored.
pub proof fn lemma_navigation_body(server_started: bool, url_built: bool, navigated: bool, later: Seq<bool>)
    ensures
        ({
            let (last, actions) = run(true, seq![server_started, url_built, navigated] + later);
            if !server_started {
                &&& last.phase == Phase::Failed(Step::StartServer)
                &&& actions == seq![
                    Action::Perform(Step::StartServer),
                    Action::Report(Err(AssertionFailure { step: Step::StartServer })),
                ]
            } else if !url_built {
                &&& last.phase == Phase::Failed(Step::BuildUrl)
                &&& actions == seq![
                    Action::Perform(Step::StartServer),
                    Action::Perform(Step::BuildUrl),
                    Action::Report(Err(AssertionFailure { step: Step::BuildUrl })),
                ]
            } else if !navigated {
                &&& last.phase == Phase::Failed(Step::Navigate)
                &&& actions == seq![
                    Action::Perform(Step::StartServer),
                    Action::Perform(Step::BuildUrl),
                    Action::Perform(Step::Navigate),
                    Action::Report(Err(AssertionFailure { step: Step::Navigate })),
                ]
            } else {
                &&& last.phase == Phase::Passed
                &&& actions == seq![
                    Action::Perform(Step::StartServer),
                    Action::Perform(Step::BuildUrl),
                    Action::Perform(Step::Navigate),
                    Action::Report(Ok(())),
                ]
            }
        }),
{
    let outcomes = seq![server_started, url_built, navigated] + later;
    reveal_with_fuel(SmokeTest::feed, 5);
    assert(outcomes.drop_first() =~= seq![url_built, navigated] + later);
    assert(outcomes.drop_first().drop_first() =~= seq![navigated] + later);
    assert(outcomes.drop_first().drop_first().drop_first() =~= later);
    let (last, actions) = run(true, outcomes);
    if !server_started {
        assert(actions =~= seq![
            Action::Perform(Step::StartServer),
            Action::Report(Err(AssertionFailure { step: Step::StartServer })),
        ]);
    } else if !url_built {
        assert(actions =~= seq![
            Action::Perform(Step::StartServer),
            Action::Perform(Step::BuildUrl),
            Action::Report(Err(AssertionFailure { step: Step::BuildUrl })),
        ]);
    } else if !navigated {
        assert(actions =~= seq![
            Action::Perform(Step::StartServer),
            Action::Perform(Step::BuildUrl),
            Action::Perform(Step::Navigate),
            Action::Report(Err(AssertionFailure { step: Step::Navigate })),
        ]);
    } else {
        assert(actions =~= seq![
            Action::Perform(Step::StartServer),
            Action::Perform(Step::BuildUrl),
            Action::Perform(Step::Navigate),
            Action::Report(Ok(())),
        ]);
    }
}

/// The test body as it stands: navigation is disabled, so the body performs
/// no fixture operation and passes.
pub fn smoke() -> (r: Result<(), AssertionFailure>)
    ensures
        r == Ok::<(), AssertionFailure>(()),
{
    let mut run = SmokeTest::new(false);
    match run.begin() {
        Action::Report(r) => r,
        Action::Perform(_) => Ok(()),
    }
}

} // verus!

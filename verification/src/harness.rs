//! The boot sequence and the test run as a state machine.
//!
//! The kernel's entry point, its fault handler and its test runner do work
//! that only the machine can do: they print, call the initialization hook,
//! run a test, signal the host, spin. What they decide is which of these
//! comes next. That decision is [`Harness::step`]: it takes what happened to
//! the last action and returns the next one.

use vstd::prelude::*;

verus! {

/// Whether the kernel was built to run or to be tested.
#[derive(Debug, Clone, Copy, PartialEq, Eq, Structural)]
pub enum Config {
    /// The kernel boots and idles; a fault is reported and halts it.
    Normal,
    /// The kernel boots and runs the registered tests; a fault fails the run.
    Test,
}

/// How far the test that is being run has come.
#[derive(Debug, Clone, Copy, PartialEq, Eq, Structural)]
pub enum Stage {
    /// Its name is being announced.
    NotStarted,
    /// Its body is executing.
    Running,
    /// Its body has returned and its success is being reported.
    Passed,
}

/// Where the kernel stands between entry and halt.
#[derive(Debug, Clone, Copy, PartialEq, Eq, Structural)]
pub enum Phase {
    /// The entry point was reached; the greeting is being written.
    Booting,
    /// The initialization hook is running.
    Initializing,
    /// The test with the given index is at the given stage.
    RunningTests { index: usize, stage: Stage },
    /// The idle loop after a boot without tests. Never left.
    Idle,
    /// The idle loop after a finished test run, or after a fault outside a
    /// test run. Never left.
    Halted,
    /// A fault ended the test run. Never left.
    RunFailed,
}

/// What happened to the action that was last handed out.
#[derive(Debug, Clone, Copy, PartialEq, Eq, Structural)]
pub enum Event {
    /// It ran to its end.
    Done,
    /// The fault handler was invoked while it ran.
    Fault,
}

/// What the kernel is to do next.
#[derive(Debug, Clone, Copy, PartialEq, Eq, Structural)]
pub enum Action {
    /// Write the greeting to the display.
    Greet,
    /// Call the initialization hook.
    Init,
    /// Print the line that names the test with this index as running.
    Announce(usize),
    /// Execute the body of the test with this index.
    Run(usize),
    /// Print that the test that has just returned is ok.
    ReportOk,
    /// Tell the host that the whole run succeeded.
    SignalSuccess,
    /// Write the fault to the display.
    ReportFault,
    /// Report the fault as a failure of the run and tell the host that the
    /// run failed.
    SignalFailure,
    /// Spin forever.
    Spin,
}

impl Phase {
    /// Whether this phase is never left again.
    pub open spec fn is_terminal(self) -> bool {
        self is Idle || self is Halted || self is RunFailed
    }
}

/// The state of the machine: the configuration, the number of registered
/// tests, and the phase.
pub struct Machine {
    pub config: Config,
    pub tests: nat,
    pub phase: Phase,
}

impl Machine {
    /// A test that is being run is one of the registered tests.
    pub open spec fn wf(self) -> bool {
        self.phase matches Phase::RunningTests { index, .. } ==> index < self.tests
    }

    /// The machine at the moment the entry point is reached.
    pub open spec fn boot(config: Config, tests: nat) -> Machine {
        Machine { config, tests, phase: Phase::Booting }
    }

    /// The machine in another phase.
    pub open spec fn at(self, phase: Phase) -> Machine {
        Machine { phase, ..self }
    }

    /// The state entered and the action due when the test with index `next`
    /// is up: it is announced, or, when there is no such test, the run ends
    /// in success.
    pub open spec fn begin_test(self, next: nat) -> (Machine, Action) {
        if next < self.tests {
            (
                self.at(Phase::RunningTests { index: next as usize, stage: Stage::NotStarted }),
                Action::Announce(next as usize),
            )
        } else {
            (self.at(Phase::Halted), Action::SignalSuccess)
        }
    }

    /// The next state and the action due after `event`.
    ///
    /// A phase that is never left answers every event with [`Action::Spin`].
    /// Before that, a fault ends everything: it is reported and the kernel
    /// halts, or under test the run fails. Otherwise the boot sequence and
    /// the tests advance in order.
    pub open spec fn step(self, event: Event) -> (Machine, Action) {
        if self.phase.is_terminal() {
            (self, Action::Spin)
        } else if event is Fault {
            match self.config {
                Config::Normal => (self.at(Phase::Halted), Action::ReportFault),
                Config::Test => (self.at(Phase::RunFailed), Action::SignalFailure),
            }
        } else {
            match self.phase {
                Phase::Booting => (self.at(Phase::Initializing), Action::Init),
                Phase::Initializing => match self.config {
                    Config::Normal => (self.at(Phase::Idle), Action::Spin),
                    Config::Test => self.begin_test(0),
                },
                Phase::RunningTests { index, stage: Stage::NotStarted } => (
                    self.at(Phase::RunningTests { index, stage: Stage::Running }),
                    Action::Run(index),
                ),
                Phase::RunningTests { index, stage: Stage::Running } => (
                    self.at(Phase::RunningTests { index, stage: Stage::Passed }),
                    Action::ReportOk,
                ),
                Phase::RunningTests { index, stage: Stage::Passed } => self.begin_test(
                    (index + 1) as nat,
                ),
                _ => (self, Action::Spin),
            }
        }
    }

    /// The state after each of `events` in order.
    pub open spec fn run(self, events: Seq<Event>) -> Machine
        decreases events.len(),
    {
        if events.len() == 0 {
            self
        } else {
            self.run(events.drop_last()).step(events.last()).0
        }
    }
}

/// The harness: the machine as the kernel holds it.
pub struct Harness {
    config: Config,
    tests: usize,
    phase: Phase,
}

impl View for Harness {
    type V = Machine;

    closed spec fn view(&self) -> Machine {
        Machine { config: self.config, tests: self.tests as nat, phase: self.phase }
    }
}

impl Harness {
    #[verifier::type_invariant]
    spec fn inv(self) -> bool {
        self@.wf()
    }

    /// The harness at the moment the entry point is reached, with `tests`
    /// registered tests, and the first action due: the greeting.
    pub fn boot(config: Config, tests: usize) -> (start: (Harness, Action))
        ensures
            start.0@ == Machine::boot(config, tests as nat),
            start.0@.wf(),
            start.1 == Action::Greet,
    {
        (Harness { config, tests, phase: Phase::Booting }, Action::Greet)
    }

    /// The current phase.
    pub fn phase(&self) -> (phase: Phase)
        ensures
            phase == self@.phase,
    {
        self.phase
    }

    /// Whether the current phase is never left again.
    pub fn is_terminal(&self) -> (terminal: bool)
        ensures
            terminal == self@.phase.is_terminal(),
    {
        match self.phase {
            Phase::Idle | Phase::Halted | Phase::RunFailed => true,
            _ => false,
        }
    }

    /// Takes what happened to the last action and returns the next one.
    pub fn step(&mut self, event: Event) -> (action: Action)
        ensures
            (final(self)@, action) == old(self)@.step(event),
            final(self)@.wf(),
    {
        proof {
            use_type_invariant(&*self);
        }
        match self.phase {
            Phase::Idle | Phase::Halted | Phase::RunFailed => Action::Spin,
            Phase::Booting => match event {
                Event::Fault => self.fault(),
                Event::Done => {
                    self.phase = Phase::Initializing;
                    Action::Init
                },
            },
            Phase::Initializing => match event {
                Event::Fault => self.fault(),
                Event::Done => match self.config {
                    Config::Normal => {
                        self.phase = Phase::Idle;
                        Action::Spin
                    },
                    Config::Test => self.begin_test(0),
                },
            },
            Phase::RunningTests { index, stage } => match event {
                Event::Fault => self.fault(),
                Event::Done => match stage {
                    Stage::NotStarted => {
                        self.phase = Phase::RunningTests { index, stage: Stage::Running };
                        Action::Run(index)
                    },
                    Stage::Running => {
                        self.phase = Phase::RunningTests { index, stage: Stage::Passed };
                        Action::ReportOk
                    },
                    Stage::Passed => self.begin_test(index + 1),
                },
            },
        }
    }

    /// Ends everything on a fault: outside a test run the fault is reported
    /// and the kernel halts; under test the run fails.
    fn fault(&mut self) -> (action: Action)
        requires
            !old(self)@.phase.is_terminal(),
        ensures
            (final(self)@, action) == old(self)@.step(Event::Fault),
            final(self)@.wf(),
    {
        match self.config {
            Config::Normal => {
                self.phase = Phase::Halted;
                Action::ReportFault
            },
            Config::Test => {
                self.phase = Phase::RunFailed;
                Action::SignalFailure
            },
        }
    }

    /// Starts the test with index `next`, or ends the run in success when
    /// there is none.
    fn begin_test(&mut self, next: usize) -> (action: Action)
        ensures
            (final(self)@, action) == old(self)@.begin_test(next as nat),
            final(self)@.wf(),
    {
        if next < self.tests {
            self.phase = Phase::RunningTests { index: next, stage: Stage::NotStarted };
            Action::Announce(next)
        } else {
            self.phase = Phase::Halted;
            Action::SignalSuccess
        }
    }
}

/// `count` actions in a row that ran to their end.
pub open spec fn all_done(count: nat) -> Seq<Event> {
    Seq::new(count, |i: int| Event::Done)
}

/// A step keeps the machine well formed and never changes the configuration
/// or the number of tests.
pub proof fn lemma_step_wf(m: Machine, event: Event)
    requires
        m.wf(),
        m.tests <= usize::MAX,
    ensures
        m.step(event).0.wf(),
        m.step(event).0.config == m.config,
        m.step(event).0.tests == m.tests,
{
}

/// A phase that is never left is never left: whatever happens, the machine
/// stays as it is and the only action is to spin.
pub proof fn lemma_terminal_stays(m: Machine, events: Seq<Event>)
    requires
        m.phase.is_terminal(),
    ensures
        m.run(events) == m,
        forall|event: Event| #[trigger] m.run(events).step(event) == (m, Action::Spin),
    decreases events.len(),
{
    if events.len() > 0 {
        lemma_terminal_stays(m, events.drop_last());
    }
}

/// A fault is final. Outside a test run it is reported and the kernel halts;
/// under test the run fails and the host is told so. Either way no test is
/// announced or run afterwards, whatever events follow.
pub proof fn lemma_fault_is_final(m: Machine, later: Seq<Event>, event: Event)
    requires
        !m.phase.is_terminal(),
    ensures
        m.config == Config::Normal ==> m.step(Event::Fault) == (
            m.at(Phase::Halted),
            Action::ReportFault,
        ),
        m.config == Config::Test ==> m.step(Event::Fault) == (
            m.at(Phase::RunFailed),
            Action::SignalFailure,
        ),
        m.step(Event::Fault).0.run(later) == m.step(Event::Fault).0,
        m.step(Event::Fault).0.run(later).step(event).1 == Action::Spin,
{
    lemma_terminal_stays(m.step(Event::Fault).0, later);
}

/// Without a fault the boot sequence and the tests run in order: after the
/// greeting and the initialization hook, each test is announced, run and
/// reported in three steps, so that `2 + 3 * i` steps lead to the start of
/// test `i`, and past the last test to the halt.
pub proof fn lemma_tests_in_order(tests: nat, i: nat)
    requires
        i <= tests,
        tests <= usize::MAX,
    ensures
        Machine::boot(Config::Test, tests).run(all_done(2 + 3 * i)) == Machine::boot(
            Config::Test,
            tests,
        ).at(
            if i < tests {
                Phase::RunningTests { index: i as usize, stage: Stage::NotStarted }
            } else {
                Phase::Halted
            },
        ),
    decreases i,
{
    let m = Machine::boot(Config::Test, tests);
    if i == 0 {
        assert(all_done(2).drop_last() =~= all_done(1));
        assert(all_done(1).drop_last() =~= all_done(0));
        assert(m.run(all_done(0)) == m);
        assert(m.run(all_done(1)) == m.at(Phase::Initializing));
    } else {
        lemma_tests_in_order(tests, (i - 1) as nat);
        let k = (2 + 3 * (i - 1)) as nat;
        let start = m.run(all_done(k));
        assert(all_done(k + 3).drop_last() =~= all_done(k + 2));
        assert(all_done(k + 2).drop_last() =~= all_done(k + 1));
        assert(all_done(k + 1).drop_last() =~= all_done(k));
        assert(m.run(all_done(k + 1)) == start.at(
            Phase::RunningTests { index: (i - 1) as usize, stage: Stage::Running },
        ));
        assert(m.run(all_done(k + 2)) == start.at(
            Phase::RunningTests { index: (i - 1) as usize, stage: Stage::Passed },
        ));
    }
}

/// A run in which no test faults ends in success: the step that follows the
/// report of the last test tells the host that the run succeeded, and the
/// kernel halts.
pub proof fn lemma_clean_run_succeeds(tests: nat)
    requires
        tests <= usize::MAX,
    ensures
        Machine::boot(Config::Test, tests).run(all_done((1 + 3 * tests) as nat)).step(Event::Done)
            == (Machine::boot(Config::Test, tests).at(Phase::Halted), Action::SignalSuccess),
{
    let m = Machine::boot(Config::Test, tests);
    if tests == 0 {
        assert(all_done(1).drop_last() =~= all_done(0));
        assert(m.run(all_done(0)) == m);
    } else {
        lemma_tests_in_order(tests, (tests - 1) as nat);
        let k = (2 + 3 * (tests - 1)) as nat;
        let start = m.run(all_done(k));
        assert(all_done(k + 2).drop_last() =~= all_done(k + 1));
        assert(all_done(k + 1).drop_last() =~= all_done(k));
        assert(m.run(all_done(k + 1)) == start.at(
            Phase::RunningTests { index: (tests - 1) as usize, stage: Stage::Running },
        ));
    }
}

/// A kernel that was not built for testing never runs a test: after the
/// greeting and the initialization hook it idles.
pub proof fn lemma_normal_boot_idles(tests: nat, later: Seq<Event>)
    ensures
        Machine::boot(Config::Normal, tests).run(all_done(2)) == Machine::boot(
            Config::Normal,
            tests,
        ).at(Phase::Idle),
        Machine::boot(Config::Normal, tests).run(all_done(2)).run(later) == Machine::boot(
            Config::Normal,
            tests,
        ).at(Phase::Idle),
{
    let m = Machine::boot(Config::Normal, tests);
    assert(all_done(2).drop_last() =~= all_done(1));
    assert(all_done(1).drop_last() =~= all_done(0));
    assert(m.run(all_done(0)) == m);
    assert(m.run(all_done(1)) == m.at(Phase::Initializing));
    lemma_terminal_stays(m.at(Phase::Idle), later);
}

} // verus!

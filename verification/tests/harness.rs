use min_os::harness::{Action, Config, Event, Harness, Phase, Stage};

#[test]
fn boot_starts_with_the_greeting() {
    let (harness, action) = Harness::boot(Config::Normal, 0);
    assert_eq!(action, Action::Greet);
    assert_eq!(harness.phase(), Phase::Booting);
    assert!(!harness.is_terminal());
}

#[test]
fn normal_boot_greets_initializes_and_idles() {
    let (mut harness, action) = Harness::boot(Config::Normal, 3);
    assert_eq!(action, Action::Greet);
    assert_eq!(harness.step(Event::Done), Action::Init);
    assert_eq!(harness.phase(), Phase::Initializing);
    assert_eq!(harness.step(Event::Done), Action::Spin);
    assert_eq!(harness.phase(), Phase::Idle);
    assert!(harness.is_terminal());
    assert_eq!(harness.step(Event::Done), Action::Spin);
    assert_eq!(harness.step(Event::Fault), Action::Spin);
    assert_eq!(harness.phase(), Phase::Idle);
}

#[test]
fn one_passing_test_signals_success() {
    let (mut harness, action) = Harness::boot(Config::Test, 1);
    assert_eq!(action, Action::Greet);
    assert_eq!(harness.step(Event::Done), Action::Init);
    assert_eq!(harness.step(Event::Done), Action::Announce(0));
    assert_eq!(harness.phase(), Phase::RunningTests { index: 0, stage: Stage::NotStarted });
    assert_eq!(harness.step(Event::Done), Action::Run(0));
    assert_eq!(harness.phase(), Phase::RunningTests { index: 0, stage: Stage::Running });
    assert_eq!(harness.step(Event::Done), Action::ReportOk);
    assert_eq!(harness.phase(), Phase::RunningTests { index: 0, stage: Stage::Passed });
    assert_eq!(harness.step(Event::Done), Action::SignalSuccess);
    assert_eq!(harness.phase(), Phase::Halted);
    assert!(harness.is_terminal());
    assert_eq!(harness.step(Event::Done), Action::Spin);
    assert_eq!(harness.phase(), Phase::Halted);
}

#[test]
fn one_faulting_test_signals_failure_and_runs_nothing_more() {
    let (mut harness, _) = Harness::boot(Config::Test, 1);
    assert_eq!(harness.step(Event::Done), Action::Init);
    assert_eq!(harness.step(Event::Done), Action::Announce(0));
    assert_eq!(harness.step(Event::Done), Action::Run(0));
    assert_eq!(harness.step(Event::Fault), Action::SignalFailure);
    assert_eq!(harness.phase(), Phase::RunFailed);
    assert!(harness.is_terminal());
    for _ in 0..10 {
        assert_eq!(harness.step(Event::Done), Action::Spin);
        assert_eq!(harness.phase(), Phase::RunFailed);
    }
    assert_eq!(harness.step(Event::Fault), Action::Spin);
}

#[test]
fn fault_in_first_of_three_tests_skips_the_rest() {
    let (mut harness, _) = Harness::boot(Config::Test, 3);
    let mut actions = Vec::new();
    actions.push(harness.step(Event::Done));
    actions.push(harness.step(Event::Done));
    actions.push(harness.step(Event::Done));
    actions.push(harness.step(Event::Fault));
    for _ in 0..12 {
        actions.push(harness.step(Event::Done));
    }
    assert_eq!(actions[0], Action::Init);
    assert_eq!(actions[1], Action::Announce(0));
    assert_eq!(actions[2], Action::Run(0));
    assert_eq!(actions[3], Action::SignalFailure);
    for action in &actions[4..] {
        assert_eq!(*action, Action::Spin);
    }
    assert!(!actions.contains(&Action::Run(1)));
    assert!(!actions.contains(&Action::Run(2)));
    assert!(!actions.contains(&Action::SignalSuccess));
}

#[test]
fn three_passing_tests_run_in_order() {
    let (mut harness, _) = Harness::boot(Config::Test, 3);
    let mut actions = Vec::new();
    for _ in 0..12 {
        actions.push(harness.step(Event::Done));
    }
    assert_eq!(
        actions,
        vec![
            Action::Init,
            Action::Announce(0),
            Action::Run(0),
            Action::ReportOk,
            Action::Announce(1),
            Action::Run(1),
            Action::ReportOk,
            Action::Announce(2),
            Action::Run(2),
            Action::ReportOk,
            Action::SignalSuccess,
            Action::Spin,
        ]
    );
    assert_eq!(harness.phase(), Phase::Halted);
}

#[test]
fn empty_test_run_succeeds_at_once() {
    let (mut harness, _) = Harness::boot(Config::Test, 0);
    assert_eq!(harness.step(Event::Done), Action::Init);
    assert_eq!(harness.step(Event::Done), Action::SignalSuccess);
    assert_eq!(harness.phase(), Phase::Halted);
}

#[test]
fn fault_while_booting_is_reported_and_halts() {
    let (mut harness, _) = Harness::boot(Config::Normal, 0);
    assert_eq!(harness.step(Event::Fault), Action::ReportFault);
    assert_eq!(harness.phase(), Phase::Halted);
    assert_eq!(harness.step(Event::Done), Action::Spin);
    assert_eq!(harness.phase(), Phase::Halted);
}

#[test]
fn fault_while_initializing_under_test_fails_the_run() {
    let (mut harness, _) = Harness::boot(Config::Test, 2);
    assert_eq!(harness.step(Event::Done), Action::Init);
    assert_eq!(harness.step(Event::Fault), Action::SignalFailure);
    assert_eq!(harness.phase(), Phase::RunFailed);
    assert_eq!(harness.step(Event::Done), Action::Spin);
}

#[test]
fn fault_while_reporting_a_pass_fails_the_run() {
    let (mut harness, _) = Harness::boot(Config::Test, 2);
    for _ in 0..4 {
        harness.step(Event::Done);
    }
    assert_eq!(harness.phase(), Phase::RunningTests { index: 0, stage: Stage::Passed });
    assert_eq!(harness.step(Event::Fault), Action::SignalFailure);
    assert_eq!(harness.phase(), Phase::RunFailed);
}

#[test]
fn second_test_fault_after_first_passes() {
    let (mut harness, _) = Harness::boot(Config::Test, 2);
    assert_eq!(harness.step(Event::Done), Action::Init);
    assert_eq!(harness.step(Event::Done), Action::Announce(0));
    assert_eq!(harness.step(Event::Done), Action::Run(0));
    assert_eq!(harness.step(Event::Done), Action::ReportOk);
    assert_eq!(harness.step(Event::Done), Action::Announce(1));
    assert_eq!(harness.step(Event::Done), Action::Run(1));
    assert_eq!(harness.step(Event::Fault), Action::SignalFailure);
    assert_eq!(harness.step(Event::Done), Action::Spin);
    assert_eq!(harness.phase(), Phase::RunFailed);
}

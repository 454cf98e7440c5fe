use audio_router::link::{LinkError, LinkStep};
use audio_router::supervisor::{Action, Command, Phase, RoutingSupervisor};

const STEPS: [LinkStep; 8] = [
    LinkStep::FindInput,
    LinkStep::ConfigureInput,
    LinkStep::BuildInput,
    LinkStep::FindOutput,
    LinkStep::ConfigureOutput,
    LinkStep::BuildOutput,
    LinkStep::StartInput,
    LinkStep::StartOutput,
];

/// Reports success for every step after the first and returns the actions.
fn succeed_all(s: &mut RoutingSupervisor) -> Vec<Action> {
    let mut actions = vec![];
    loop {
        let a = s.step_finished(true);
        actions.push(a);
        if !matches!(a, Action::Perform { .. }) {
            return actions;
        }
    }
}

#[test]
fn start_from_idle_runs_every_step_then_links() {
    let mut s = RoutingSupervisor::new(1000);
    assert_eq!(s.phase(), Phase::Idle);
    let first = s.handle(Command::Start(2));
    assert_eq!(first, Action::Perform { close_active: false, input: 2, step: LinkStep::FindInput });
    let rest = succeed_all(&mut s);
    assert_eq!(rest.len(), 8);
    for (i, step) in STEPS.iter().enumerate().skip(1) {
        assert_eq!(rest[i - 1], Action::Perform { close_active: false, input: 2, step: *step });
    }
    assert_eq!(rest[7], Action::Established { input: 2 });
    assert_eq!(s.phase(), Phase::Linked { input: 2 });
}

#[test]
fn invalid_device_leaves_idle_with_open_error_then_valid_start_links() {
    let mut s = RoutingSupervisor::new(1000);
    s.handle(Command::Start(99));
    let failed = s.step_finished(false);
    assert_eq!(
        failed,
        Action::Abandon { error: LinkError::StreamOpenError, input_built: false, output_built: false }
    );
    assert_eq!(s.phase(), Phase::Idle);
    assert!(s.is_settled());
    let again = s.handle(Command::Start(0));
    assert_eq!(again, Action::Perform { close_active: false, input: 0, step: LinkStep::FindInput });
    let rest = succeed_all(&mut s);
    assert_eq!(rest.last(), Some(&Action::Established { input: 0 }));
    assert_eq!(s.phase(), Phase::Linked { input: 0 });
}

#[test]
fn second_start_closes_first_link_before_building_second() {
    let mut s = RoutingSupervisor::new(1000);
    s.handle(Command::Start(0));
    succeed_all(&mut s);
    assert_eq!(s.phase(), Phase::Linked { input: 0 });
    let first = s.handle(Command::Start(1));
    assert_eq!(first, Action::Perform { close_active: true, input: 1, step: LinkStep::FindInput });
    let rest = succeed_all(&mut s);
    let closes = rest.iter().filter(|a| matches!(a, Action::Perform { close_active: true, .. })).count();
    assert_eq!(closes, 0);
    assert!(rest.iter().all(|a| !matches!(a, Action::Perform { input: 0, .. })));
    assert_eq!(s.phase(), Phase::Linked { input: 1 });
}

#[test]
fn failed_replacement_leaves_idle() {
    let mut s = RoutingSupervisor::new(1000);
    s.handle(Command::Start(0));
    succeed_all(&mut s);
    s.handle(Command::Start(1));
    for _ in 0..5 {
        s.step_finished(true);
    }
    assert_eq!(s.phase(), Phase::Opening { input: 1, step: LinkStep::BuildOutput });
    let failed = s.step_finished(false);
    assert_eq!(
        failed,
        Action::Abandon { error: LinkError::StreamOpenError, input_built: true, output_built: false }
    );
    assert_eq!(s.phase(), Phase::Idle);
}

#[test]
fn each_failure_names_its_error_and_what_was_built() {
    let expected = [
        (LinkError::StreamOpenError, false, false),
        (LinkError::StreamConfigError, false, false),
        (LinkError::StreamOpenError, false, false),
        (LinkError::StreamOpenError, true, false),
        (LinkError::StreamConfigError, true, false),
        (LinkError::StreamOpenError, true, false),
        (LinkError::StreamStartError, true, true),
        (LinkError::StreamStartError, true, true),
    ];
    for (k, (error, input_built, output_built)) in expected.iter().enumerate() {
        let mut s = RoutingSupervisor::new(1000);
        s.handle(Command::Start(0));
        for _ in 0..k {
            s.step_finished(true);
        }
        assert_eq!(s.phase(), Phase::Opening { input: 0, step: STEPS[k] });
        assert_eq!(
            s.step_finished(false),
            Action::Abandon { error: *error, input_built: *input_built, output_built: *output_built }
        );
        assert_eq!(s.phase(), Phase::Idle);
    }
}

#[test]
fn adjust_gain_keeps_link_and_publishes_level() {
    let mut s = RoutingSupervisor::new(1000);
    assert_eq!(s.handle(Command::AdjustGain(-300)), Action::PublishGain(700));
    assert_eq!(s.phase(), Phase::Idle);
    s.handle(Command::Start(3));
    succeed_all(&mut s);
    assert_eq!(s.handle(Command::AdjustGain(-5000)), Action::PublishGain(0));
    assert_eq!(s.gain(), 0);
    assert_eq!(s.phase(), Phase::Linked { input: 3 });
}

#[test]
fn gain_persists_across_link_switches() {
    let mut s = RoutingSupervisor::new(1000);
    s.handle(Command::AdjustGain(10_000));
    s.handle(Command::Start(0));
    succeed_all(&mut s);
    s.handle(Command::Start(1));
    succeed_all(&mut s);
    assert_eq!(s.gain(), 11_000);
}

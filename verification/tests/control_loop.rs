use rover_runtime::control::{
    Action, ChangeKind, ControlCommand, ControlEvent, Outcome, Phase, Step, DEAD_TIMEOUT,
};
use rover_runtime::diagnostic::Diagnostic;
use rover_runtime::protocol::ProtocolError;
use tokio_util::sync::CancellationToken;

fn event(change_kind: ChangeKind, steer: f64, speed: f64) -> Outcome<f64> {
    Outcome::Event(ControlEvent { change_kind, data: ControlCommand { steer, speed } })
}

fn wait() -> Action<f64> {
    Action::Wait { deadline_ms: 500 }
}

fn moved(phase: Phase, outcome: Outcome<f64>, cancelled: bool) -> Step<f64> {
    phase.advance(outcome, cancelled).unwrap()
}

#[test]
fn dead_timeout_is_half_a_second() {
    assert_eq!(DEAD_TIMEOUT, 500);
}

#[test]
fn loop_begins_by_subscribing() {
    let step = Phase::begin::<f64>(false);
    assert_eq!(step.next, Phase::Disconnected);
    assert_eq!(step.action, Action::Subscribe);
    assert!(step.log.is_empty());
}

#[test]
fn loop_cancelled_before_start_goes_straight_to_safe_stop() {
    let step = Phase::begin::<f64>(true);
    assert_eq!(step.next, Phase::Cancelled);
    assert_eq!(step.action, Action::SafeStop);
    assert!(step.log.is_empty());
}

#[test]
fn opened_subscription_arms_the_dead_man_wait() {
    let step = moved(Phase::Disconnected, Outcome::Opened, false);
    assert_eq!(step.next, Phase::Waiting);
    assert_eq!(step.action, Action::Wait { deadline_ms: DEAD_TIMEOUT });
    assert!(step.log.is_empty());
}

#[test]
fn update_then_silence_zeroes_speed_and_leaves_steering() {
    let mut actions: Vec<Action<f64>> = Vec::new();
    let mut log: Vec<Diagnostic> = Vec::new();
    let first = Phase::begin::<f64>(false);
    let mut phase = first.next;
    actions.push(first.action);
    let outcomes = vec![
        Outcome::Opened,
        event(ChangeKind::Update, 0.3, 0.5),
        Outcome::Applied { steer_ok: true, speed_ok: true },
        Outcome::TimedOut,
        Outcome::Zeroed,
    ];
    for outcome in outcomes {
        let step = moved(phase, outcome, false);
        phase = step.next;
        actions.push(step.action);
        log.extend(step.log);
    }
    assert_eq!(
        actions,
        vec![
            Action::Subscribe,
            wait(),
            Action::Apply { steer: 0.3, speed: 0.5 },
            wait(),
            Action::ZeroSpeed,
            wait(),
        ]
    );
    assert_eq!(log, vec![Diagnostic::StaleCommand]);
    assert_eq!(phase, Phase::Waiting);
    let applied = actions.iter().filter(|a| matches!(a, Action::Apply { .. })).count();
    assert_eq!(applied, 1);
}

#[test]
fn timeout_is_answered_by_zero_speed_with_staleness_reported() {
    let step = moved(Phase::Waiting, Outcome::TimedOut, false);
    assert_eq!(step.next, Phase::Zeroing);
    assert_eq!(step.action, Action::ZeroSpeed);
    assert_eq!(step.log, vec![Diagnostic::StaleCommand]);
}

#[test]
fn timeout_is_acted_on_even_when_cancelled() {
    let step = moved(Phase::Waiting, Outcome::TimedOut, true);
    assert_eq!(step.next, Phase::Zeroing);
    assert_eq!(step.action, Action::ZeroSpeed);
}

#[test]
fn every_timeout_rearms_the_wait() {
    let mut phase = Phase::Waiting;
    for _ in 0..3 {
        let zero = moved(phase, Outcome::TimedOut, false);
        assert_eq!(zero.action, Action::ZeroSpeed);
        let again = moved(zero.next, Outcome::Zeroed, false);
        assert_eq!(again.action, wait());
        assert_eq!(again.next, Phase::Waiting);
        phase = again.next;
    }
}

#[test]
fn subscription_outage_is_retried_without_touching_actuators() {
    let first = Phase::begin::<f64>(false);
    let mut phase = first.next;
    let mut failures = 0;
    for _ in 0..3 {
        let step = moved(phase, Outcome::OpenFailed, false);
        assert_eq!(step.next, Phase::Disconnected);
        assert_eq!(step.action, Action::Subscribe);
        assert_eq!(step.log, vec![Diagnostic::SubscribeFailed]);
        failures += step.log.len();
        phase = step.next;
    }
    assert_eq!(failures, 3);
    let step = moved(phase, Outcome::Opened, false);
    assert_eq!(step.action, wait());
}

#[test]
fn cancellation_during_wait_ends_in_safe_stop() {
    let root = CancellationToken::new();
    let token = root.child_token();
    let first = Phase::start::<f64>(&token);
    assert_eq!(first.action, Action::Subscribe);
    let waiting = first.next.step(Outcome::<f64>::Opened, &token).unwrap();
    assert_eq!(waiting.action, wait());
    root.cancel();
    let zero = waiting.next.step(Outcome::<f64>::TimedOut, &token).unwrap();
    assert_eq!(zero.action, Action::ZeroSpeed);
    let stop = zero.next.step(Outcome::<f64>::Zeroed, &token).unwrap();
    assert_eq!(stop.action, Action::SafeStop);
    assert_eq!(stop.next, Phase::Cancelled);
    assert!(stop.next.is_terminal());
    assert_eq!(
        stop.next.step(Outcome::<f64>::Zeroed, &token),
        Err(ProtocolError::Finished)
    );
}

#[test]
fn cancellation_seen_after_an_ignored_event_ends_in_safe_stop() {
    let token = CancellationToken::new();
    token.cancel();
    let stop = Phase::Waiting.step(event(ChangeKind::Insert, 0.1, 0.2), &token).unwrap();
    assert_eq!(stop.action, Action::SafeStop);
    assert_eq!(stop.next, Phase::Cancelled);
}

#[test]
fn start_on_a_cancelled_token_asks_for_safe_stop() {
    let token = CancellationToken::new();
    token.cancel();
    let first = Phase::start::<f64>(&token);
    assert_eq!(first.action, Action::SafeStop);
    assert_eq!(first.next, Phase::Cancelled);
}

#[test]
fn step_on_a_live_token_goes_on() {
    let token = CancellationToken::new();
    let step = Phase::Disconnected.step(Outcome::<f64>::Opened, &token).unwrap();
    assert_eq!(step.action, wait());
    let step = Phase::Applying
        .step(Outcome::<f64>::Applied { steer_ok: true, speed_ok: true }, &token)
        .unwrap();
    assert_eq!(step.action, wait());
}

#[test]
fn update_is_applied_before_cancellation_is_looked_at() {
    let token = CancellationToken::new();
    token.cancel();
    let step = Phase::Waiting.step(event(ChangeKind::Update, -1.0, 0.25), &token).unwrap();
    assert_eq!(step.action, Action::Apply { steer: -1.0, speed: 0.25 });
    assert_eq!(step.next, Phase::Applying);
    let stop = step
        .next
        .step(Outcome::<f64>::Applied { steer_ok: true, speed_ok: true }, &token)
        .unwrap();
    assert_eq!(stop.action, Action::SafeStop);
}

#[test]
fn insert_and_delete_never_reach_the_actuators() {
    for kind in [ChangeKind::Insert, ChangeKind::Delete] {
        for cancelled in [false, true] {
            let step = moved(Phase::Waiting, event(kind, 0.9, 0.9), cancelled);
            assert!(!matches!(step.action, Action::Apply { .. }));
            assert!(!matches!(step.action, Action::ZeroSpeed));
            assert!(step.log.is_empty());
        }
        let step = moved(Phase::Waiting, event(kind, 0.9, 0.9), false);
        assert_eq!(step.action, wait());
        assert_eq!(step.next, Phase::Waiting);
    }
}

#[test]
fn update_hands_on_steer_and_speed_unchanged() {
    let step = moved(Phase::Waiting, event(ChangeKind::Update, 0.3, 0.5), false);
    assert_eq!(step.next, Phase::Applying);
    assert_eq!(step.action, Action::Apply { steer: 0.3, speed: 0.5 });
    assert!(step.log.is_empty());
}

#[test]
fn decode_failure_is_logged_and_the_wait_goes_on() {
    let step = moved(Phase::Waiting, Outcome::DecodeFailed, false);
    assert_eq!(step.next, Phase::Waiting);
    assert_eq!(step.action, wait());
    assert_eq!(step.log, vec![Diagnostic::DecodeFailed]);
}

#[test]
fn stream_failure_leads_back_to_subscribing() {
    let step = moved(Phase::Waiting, Outcome::StreamFailed, false);
    assert_eq!(step.next, Phase::Disconnected);
    assert_eq!(step.action, Action::Subscribe);
    assert_eq!(step.log, vec![Diagnostic::StreamFailed]);
}

#[test]
fn actuator_failures_are_logged_and_the_loop_goes_on() {
    let both = moved(Phase::Applying, Outcome::Applied { steer_ok: false, speed_ok: false }, false);
    assert_eq!(both.log, vec![Diagnostic::SteerFailed, Diagnostic::MotorFailed]);
    assert_eq!(both.action, wait());
    assert_eq!(both.next, Phase::Waiting);
    let steer = moved(Phase::Applying, Outcome::Applied { steer_ok: false, speed_ok: true }, false);
    assert_eq!(steer.log, vec![Diagnostic::SteerFailed]);
    let motor = moved(Phase::Applying, Outcome::Applied { steer_ok: true, speed_ok: false }, false);
    assert_eq!(motor.log, vec![Diagnostic::MotorFailed]);
    let none = moved(Phase::Applying, Outcome::Applied { steer_ok: true, speed_ok: true }, false);
    assert!(none.log.is_empty());
}

#[test]
fn cancellation_keeps_what_has_to_be_logged() {
    let step = moved(Phase::Applying, Outcome::Applied { steer_ok: false, speed_ok: true }, true);
    assert_eq!(step.action, Action::SafeStop);
    assert_eq!(step.log, vec![Diagnostic::SteerFailed]);
    let step = moved(Phase::Disconnected, Outcome::OpenFailed, true);
    assert_eq!(step.action, Action::SafeStop);
    assert_eq!(step.next, Phase::Cancelled);
    assert_eq!(step.log, vec![Diagnostic::SubscribeFailed]);
}

#[test]
fn outcome_that_answers_nothing_pending_is_unexpected() {
    assert_eq!(
        Phase::Disconnected.advance(Outcome::<f64>::TimedOut, false),
        Err(ProtocolError::Unexpected)
    );
    assert_eq!(
        Phase::Waiting.advance(Outcome::<f64>::Opened, false),
        Err(ProtocolError::Unexpected)
    );
    assert_eq!(
        Phase::Applying.advance(Outcome::<f64>::Zeroed, false),
        Err(ProtocolError::Unexpected)
    );
    assert_eq!(
        Phase::Zeroing.advance(event(ChangeKind::Update, 0.3, 0.5), false),
        Err(ProtocolError::Unexpected)
    );
}

#[test]
fn cancelled_machine_accepts_nothing() {
    for outcome in [
        Outcome::<f64>::Opened,
        Outcome::TimedOut,
        Outcome::Zeroed,
        event(ChangeKind::Update, 0.3, 0.5),
    ] {
        assert_eq!(Phase::Cancelled.advance(outcome, false), Err(ProtocolError::Finished));
        assert_eq!(Phase::Cancelled.advance(outcome, true), Err(ProtocolError::Finished));
    }
}

#[test]
fn safe_stop_is_asked_for_exactly_once() {
    let first = Phase::begin::<f64>(false);
    let mut phase = first.next;
    let mut stops = 0;
    let script = vec![
        (Outcome::Opened, false),
        (event(ChangeKind::Update, 0.3, 0.5), false),
        (Outcome::Applied { steer_ok: true, speed_ok: true }, true),
        (Outcome::Zeroed, true),
        (Outcome::Opened, true),
        (Outcome::TimedOut, false),
    ];
    for (outcome, cancelled) in script {
        if let Ok(step) = phase.advance(outcome, cancelled) {
            if step.action == Action::SafeStop {
                stops += 1;
            }
            phase = step.next;
        }
    }
    assert_eq!(phase, Phase::Cancelled);
    assert_eq!(stops, 1);
}

#[test]
fn signal_is_read_only_at_the_top_of_the_loop() {
    assert!(Phase::Disconnected.reads_signal(&Outcome::<f64>::Opened));
    assert!(Phase::Disconnected.reads_signal(&Outcome::<f64>::OpenFailed));
    assert!(Phase::Waiting.reads_signal(&event(ChangeKind::Delete, 0.0, 0.0)));
    assert!(Phase::Waiting.reads_signal(&Outcome::<f64>::DecodeFailed));
    assert!(Phase::Waiting.reads_signal(&Outcome::<f64>::StreamFailed));
    assert!(Phase::Zeroing.reads_signal(&Outcome::<f64>::Zeroed));
    assert!(!Phase::Waiting.reads_signal(&Outcome::<f64>::TimedOut));
    assert!(!Phase::Waiting.reads_signal(&event(ChangeKind::Update, 0.0, 0.0)));
    assert!(!Phase::Waiting.reads_signal(&Outcome::<f64>::Opened));
    assert!(!Phase::Cancelled.reads_signal(&Outcome::<f64>::Opened));
}

#[test]
fn stale_command_is_not_an_error() {
    assert!(!Diagnostic::StaleCommand.is_error());
    for fault in [
        Diagnostic::SubscribeFailed,
        Diagnostic::StreamFailed,
        Diagnostic::DecodeFailed,
        Diagnostic::ReadFailed,
        Diagnostic::SteerFailed,
        Diagnostic::MotorFailed,
        Diagnostic::AppendFailed,
    ] {
        assert!(fault.is_error());
    }
}

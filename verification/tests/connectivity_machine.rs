use range_beacon::connectivity::{
    ConnAction, ConnEvent, ConnPhase, ConnectivityManager, Credential, LinkState,
    DISCONNECT_COOLDOWN_MS, RETRY_BACKOFF_MS,
};

fn test_credential() -> Credential {
    Credential {
        ssid: String::from("workshop"),
        password: String::from("let-me-in"),
    }
}

#[test]
fn fresh_manager_checks_status_first() {
    let manager = ConnectivityManager::new(test_credential());
    assert_eq!(manager.phase, ConnPhase::CheckStatus);
    assert_eq!(manager.pending(), ConnAction::QueryStatus);
}

#[test]
fn connected_status_waits_for_disconnect() {
    let mut manager = ConnectivityManager::new(test_credential());
    let action = manager.step(ConnEvent::StatusIs { state: LinkState::Connected });
    assert_eq!(action, ConnAction::WaitForDisconnect);
    assert_eq!(manager.phase, ConnPhase::AwaitDisconnect);
}

#[test]
fn disconnect_applies_full_cooldown_before_next_attempt() {
    let mut manager = ConnectivityManager::new(test_credential());
    manager.step(ConnEvent::StatusIs { state: LinkState::Connected });
    let action = manager.step(ConnEvent::DisconnectObserved);
    assert_eq!(action, ConnAction::Delay { ms: DISCONNECT_COOLDOWN_MS });
    assert_eq!(DISCONNECT_COOLDOWN_MS, 5000);
    // Until the cooldown elapses the manager asks for nothing else.
    let action = manager.step(ConnEvent::DelayElapsed);
    assert_eq!(action, ConnAction::QueryStarted);
    assert_eq!(manager.phase, ConnPhase::CheckStarted);
}

#[test]
fn stopped_radio_is_configured_and_started() {
    let mut manager = ConnectivityManager::new(test_credential());
    manager.step(ConnEvent::StatusIs { state: LinkState::Disconnected });
    assert_eq!(manager.phase, ConnPhase::CheckStarted);
    let action = manager.step(ConnEvent::StartedIs { started: false });
    assert_eq!(action, ConnAction::SetConfiguration);
    let action = manager.step(ConnEvent::ConfigResult { ok: true });
    assert_eq!(action, ConnAction::StartRadio);
    let action = manager.step(ConnEvent::StartResult { ok: true });
    assert_eq!(action, ConnAction::Connect);
    assert_eq!(manager.phase, ConnPhase::Connecting);
}

#[test]
fn started_radio_connects_directly() {
    let mut manager = ConnectivityManager::new(test_credential());
    manager.step(ConnEvent::StatusIs { state: LinkState::Disconnected });
    let action = manager.step(ConnEvent::StartedIs { started: true });
    assert_eq!(action, ConnAction::Connect);
}

#[test]
fn start_failure_is_absorbed_by_the_next_pass() {
    let mut manager = ConnectivityManager::new(test_credential());
    manager.step(ConnEvent::StatusIs { state: LinkState::Disconnected });
    manager.step(ConnEvent::StartedIs { started: false });
    manager.step(ConnEvent::ConfigResult { ok: true });
    let action = manager.step(ConnEvent::StartResult { ok: false });
    assert_eq!(action, ConnAction::QueryStatus);
    assert_eq!(manager.phase, ConnPhase::CheckStatus);
}

/// Drive the manager through one association attempt that fails, from the
/// status check onward, and collect every action it issues.
fn one_failed_attempt(manager: &mut ConnectivityManager) -> Vec<ConnAction> {
    let mut actions = Vec::new();
    actions.push(manager.step(ConnEvent::StatusIs { state: LinkState::Disconnected }));
    actions.push(manager.step(ConnEvent::StartedIs { started: true }));
    actions.push(manager.step(ConnEvent::ConnectResult { ok: false }));
    actions.push(manager.step(ConnEvent::DelayElapsed));
    actions
}

#[test]
fn three_failures_give_three_full_backoffs_and_no_terminal_state() {
    let mut manager = ConnectivityManager::new(test_credential());
    let mut delays = 0;
    for _ in 0..3 {
        let actions = one_failed_attempt(&mut manager);
        delays += actions
            .iter()
            .filter(|a| matches!(a, ConnAction::Delay { ms: m } if *m == RETRY_BACKOFF_MS))
            .count();
        // After each failure the loop is back at its status check, ready
        // for the next attempt.
        assert_eq!(manager.phase, ConnPhase::CheckStatus);
        assert_eq!(manager.pending(), ConnAction::QueryStatus);
    }
    assert_eq!(delays, 3);
    assert_eq!(RETRY_BACKOFF_MS, 5000);
}

#[test]
fn successful_attempt_loops_back_to_status_check() {
    let mut manager = ConnectivityManager::new(test_credential());
    manager.step(ConnEvent::StatusIs { state: LinkState::Disconnected });
    manager.step(ConnEvent::StartedIs { started: true });
    let action = manager.step(ConnEvent::ConnectResult { ok: true });
    assert_eq!(action, ConnAction::QueryStatus);
    assert_eq!(manager.phase, ConnPhase::CheckStatus);
}

#[test]
fn credential_is_never_touched() {
    let mut manager = ConnectivityManager::new(test_credential());
    one_failed_attempt(&mut manager);
    assert_eq!(manager.credential.ssid, "workshop");
    assert_eq!(manager.credential.password, "let-me-in");
}

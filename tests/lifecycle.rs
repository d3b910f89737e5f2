use storage_program::{next_step, readiness_message, Action, Phase, WAITING_FOR_REQUESTS};

#[test]
fn startup_announces_once_then_notifies_host() {
    let (phase, action) = next_step(Phase::Starting);
    assert_eq!(phase, Phase::Announcing);
    assert_eq!(action, Action::PrintReadiness);
    let (phase, action) = next_step(phase);
    assert_eq!(phase, Phase::Parked);
    assert_eq!(action, Action::NotifyHost { event: WAITING_FOR_REQUESTS });
}

#[test]
fn startup_run_prints_exactly_one_banner() {
    let mut phase = Phase::Starting;
    let mut actions = Vec::new();
    for _ in 0..10 {
        let (next, action) = next_step(phase);
        actions.push(action);
        phase = next;
    }
    let banners = actions.iter().filter(|a| **a == Action::PrintReadiness).count();
    assert_eq!(banners, 1);
    assert_eq!(actions[0], Action::PrintReadiness);
    assert_eq!(actions[1], Action::NotifyHost { event: 0x10001 });
    assert!(actions[2..].iter().all(|a| *a == Action::Idle));
    assert_eq!(phase, Phase::Parked);
}

#[test]
fn parked_guest_stays_parked() {
    let mut phase = Phase::Parked;
    for _ in 0..5 {
        let (next, action) = next_step(phase);
        assert_eq!(next, Phase::Parked);
        assert_eq!(action, Action::Idle);
        phase = next;
    }
}

#[test]
fn event_code_is_waiting_for_requests() {
    assert_eq!(WAITING_FOR_REQUESTS, 0x10001);
}

#[test]
fn readiness_banner_text() {
    assert_eq!(readiness_message(), "Hello, Storage World!");
}

use uptime_sync::policy::{PollerAction, PollerEvent, ReconnectPolicy, poller_step};

#[test]
fn backoff_sequence_doubles_to_cap() {
    let mut policy = ReconnectPolicy::new();
    let mut delays: Vec<u64> = Vec::new();
    for _ in 0..8 {
        delays.push(policy.next_delay());
    }
    assert_eq!(delays, vec![5, 10, 20, 40, 80, 160, 300, 300]);
}

#[test]
fn refresh_resets_backoff_to_base() {
    let mut policy = ReconnectPolicy::new();
    for _ in 0..6 {
        policy.next_delay();
    }
    // The delay has grown close to the ceiling; a refresh returns it to base.
    let action = poller_step(&mut policy, PollerEvent::Refresh);
    assert!(matches!(
        action,
        PollerAction::ReconnectAfterGrace { grace_secs: 2 }
    ));
    let next = poller_step(&mut policy, PollerEvent::Failed);
    assert!(matches!(next, PollerAction::RetryAfter { delay_secs: 5 }));
}

#[test]
fn success_resets_backoff_to_base() {
    let mut policy = ReconnectPolicy::new();
    policy.next_delay();
    policy.next_delay();
    let action = poller_step(&mut policy, PollerEvent::Succeeded);
    assert!(matches!(action, PollerAction::Reconnect));
    assert_eq!(policy.next_delay(), 5);
}

#[test]
fn failure_reports_current_delay_then_doubles() {
    let mut policy = ReconnectPolicy::new();
    let first = poller_step(&mut policy, PollerEvent::Failed);
    let second = poller_step(&mut policy, PollerEvent::Failed);
    assert!(matches!(first, PollerAction::RetryAfter { delay_secs: 5 }));
    assert!(matches!(second, PollerAction::RetryAfter { delay_secs: 10 }));
}

use live_server::registry::Registry;
use std::cell::RefCell;

fn sorted_ids(registry: &Registry<String>) -> Vec<u128> {
    let mut ids: Vec<u128> = registry.broadcast_targets().iter().map(|t| t.0).collect();
    ids.sort();
    ids
}

#[test]
fn new_registry_is_empty() {
    let registry: Registry<String> = Registry::new();
    assert_eq!(registry.len(), 0);
    assert!(registry.broadcast_targets().is_empty());
    assert!(!registry.is_registered(1));
}

#[test]
fn registered_session_is_reached_by_a_broadcast() {
    let mut registry = Registry::new();
    registry.register(7, "tab".to_string());
    assert!(registry.is_registered(7));
    assert_eq!(registry.len(), 1);
    let targets = registry.broadcast_targets();
    assert_eq!(targets.len(), 1);
    assert_eq!(targets[0].0, 7);
    assert_eq!(targets[0].1, "tab");
}

#[test]
fn unregistered_session_is_no_longer_reached() {
    let mut registry = Registry::new();
    registry.register(1, "a".to_string());
    registry.register(2, "b".to_string());
    assert!(registry.unregister(1));
    assert!(!registry.is_registered(1));
    assert_eq!(sorted_ids(&registry), vec![2]);
}

#[test]
fn unregistering_twice_is_a_noop() {
    let mut registry = Registry::new();
    registry.register(1, "a".to_string());
    registry.register(2, "b".to_string());
    assert!(registry.unregister(1));
    assert!(!registry.unregister(1));
    assert_eq!(registry.len(), 1);
    assert_eq!(sorted_ids(&registry), vec![2]);
}

#[test]
fn unregistering_a_session_never_registered_is_a_noop() {
    let mut registry = Registry::new();
    registry.register(1, "a".to_string());
    assert!(!registry.unregister(99));
    assert_eq!(registry.len(), 1);
    assert_eq!(sorted_ids(&registry), vec![1]);
    let mut empty: Registry<String> = Registry::new();
    assert!(!empty.unregister(0));
    assert_eq!(empty.len(), 0);
}

#[test]
fn registering_under_a_used_identifier_replaces_the_channel() {
    let mut registry = Registry::new();
    registry.register(5, "old".to_string());
    registry.register(5, "new".to_string());
    assert_eq!(registry.len(), 1);
    let targets = registry.broadcast_targets();
    assert_eq!(targets.len(), 1);
    assert_eq!(targets[0].1, "new");
}

#[test]
fn every_live_session_gets_one_message_per_broadcast() {
    let mut registry = Registry::new();
    let mut received: Vec<(u128, usize)> = Vec::new();
    let mut broadcast = |registry: &Registry<String>, received: &mut Vec<(u128, usize)>| {
        for (id, _) in registry.broadcast_targets() {
            match received.iter_mut().find(|r| r.0 == id) {
                Some(r) => r.1 += 1,
                None => received.push((id, 1)),
            }
        }
    };
    registry.register(1, "a".to_string());
    broadcast(&registry, &mut received);
    registry.register(2, "b".to_string());
    registry.register(3, "c".to_string());
    broadcast(&registry, &mut received);
    registry.unregister(1);
    broadcast(&registry, &mut received);
    registry.unregister(3);
    registry.register(4, "d".to_string());
    broadcast(&registry, &mut received);
    received.sort();
    assert_eq!(received, vec![(1, 2), (2, 3), (3, 2), (4, 1)]);
}

#[test]
fn broadcast_does_not_change_the_registry() {
    let mut registry = Registry::new();
    registry.register(1, "a".to_string());
    registry.register(2, "b".to_string());
    let first = sorted_ids(&registry);
    let second = sorted_ids(&registry);
    assert_eq!(first, vec![1, 2]);
    assert_eq!(first, second);
    assert_eq!(registry.len(), 2);
}

#[test]
fn broadcast_targets_carry_each_sessions_own_channel() {
    let mut registry = Registry::new();
    for id in 0..20u128 {
        registry.register(id, format!("channel-{}", id));
    }
    let targets = registry.broadcast_targets();
    assert_eq!(targets.len(), 20);
    for (id, channel) in targets {
        assert_eq!(channel, &format!("channel-{}", id));
    }
}

#[test]
fn large_identifiers_are_kept_apart() {
    let mut registry = Registry::new();
    registry.register(u128::MAX, "max".to_string());
    registry.register(u128::MAX - 1, "almost".to_string());
    registry.register(0, "zero".to_string());
    assert_eq!(sorted_ids(&registry), vec![0, u128::MAX - 1, u128::MAX]);
}

#[test]
fn open_session_registers_under_a_random_identifier() {
    let mut registry = Registry::new();
    let id = registry.open_session("tab".to_string());
    assert!(registry.is_registered(id));
    assert_eq!(registry.len(), 1);
    assert_eq!((id >> 76) & 0xf, 4);
    assert_eq!((id >> 62) & 0x3, 2);
    assert!(registry.unregister(id));
    assert_eq!(registry.len(), 0);
}

#[test]
fn open_session_hands_out_distinct_identifiers() {
    let mut registry = Registry::new();
    let mut ids = Vec::new();
    for n in 0..32 {
        ids.push(registry.open_session(format!("tab-{}", n)));
    }
    assert_eq!(registry.len(), 32);
    ids.sort();
    ids.dedup();
    assert_eq!(ids.len(), 32);
}

#[test]
fn session_lifecycle_open_then_close() {
    let mut registry = Registry::new();
    let first = registry.open_session("a".to_string());
    let second = registry.open_session("b".to_string());
    assert_eq!(registry.broadcast_targets().len(), 2);
    assert!(registry.unregister(first));
    let targets = registry.broadcast_targets();
    assert_eq!(targets.len(), 1);
    assert_eq!(targets[0].0, second);
    assert_eq!(targets[0].1, "b");
}

#[test]
fn for_each_active_visits_every_session_once() {
    let mut registry = Registry::new();
    registry.register(1, "a".to_string());
    registry.register(2, "b".to_string());
    registry.register(3, "c".to_string());
    let seen = RefCell::new(Vec::new());
    let failed = registry.for_each_active(|channel: &String| {
        seen.borrow_mut().push(channel.clone());
        true
    });
    assert!(failed.is_empty());
    let mut seen = seen.into_inner();
    seen.sort();
    assert_eq!(seen, vec!["a".to_string(), "b".to_string(), "c".to_string()]);
}

#[test]
fn for_each_active_goes_on_after_a_failure() {
    let mut registry = Registry::new();
    registry.register(1, "live".to_string());
    registry.register(2, "closed".to_string());
    registry.register(3, "live".to_string());
    registry.register(4, "closed".to_string());
    let calls = RefCell::new(0usize);
    let mut failed = registry.for_each_active(|channel: &String| {
        *calls.borrow_mut() += 1;
        channel == "live"
    });
    failed.sort();
    assert_eq!(failed, vec![2, 4]);
    assert_eq!(*calls.borrow(), 4);
    assert_eq!(registry.len(), 4);
    assert!(registry.is_registered(2));
}

#[test]
fn for_each_active_on_an_empty_registry_calls_nothing() {
    let registry: Registry<String> = Registry::new();
    let calls = RefCell::new(0usize);
    let failed = registry.for_each_active(|_channel: &String| {
        *calls.borrow_mut() += 1;
        false
    });
    assert!(failed.is_empty());
    assert_eq!(*calls.borrow(), 0);
}

use failure_detector::detector::{
    event_fits_state, initial, step, DetectorAction, DetectorConfig, DetectorEvent, DetectorState,
    FailureEvent,
};
use failure_detector::registry::{eligible_count, nth_eligible, Node};

fn node(name: &str, ip: &str, ports: &[u16]) -> Node {
    Node { name: name.to_string(), ip: ip.to_string(), shard_ports: ports.to_vec() }
}

fn config() -> DetectorConfig {
    DetectorConfig { failure_detection_interval: 500, remote_shard_connect_timeout: 250 }
}

#[test]
fn initial_sleeps_one_interval() {
    let (state, action) = initial(&config());
    assert_eq!(state, DetectorState::Sleeping);
    assert_eq!(action, DetectorAction::Sleep { millis: 500 });
}

#[test]
fn empty_registry_sleeps_and_repeats() {
    let cfg = config();
    let mut state = DetectorState::Sleeping;
    for _ in 0..3 {
        let (s, a) = step(state, DetectorEvent::SleepFinished, &cfg);
        assert_eq!(a, DetectorAction::ReadRegistry);
        let (s, a) = step(s, DetectorEvent::Snapshot { nodes: Vec::new() }, &cfg);
        assert_eq!(s, DetectorState::Sleeping);
        assert_eq!(a, DetectorAction::Sleep { millis: 500 });
        state = s;
    }
}

#[test]
fn all_nodes_without_ports_are_skipped() {
    let cfg = config();
    let nodes = vec![node("a", "10.0.0.1", &[]), node("b", "10.0.0.2", &[]), node("c", "10.0.0.3", &[])];
    let (s, a) = step(
        DetectorState::AwaitingSnapshot,
        DetectorEvent::Snapshot { nodes },
        &cfg,
    );
    assert_eq!(s, DetectorState::Sleeping);
    assert_eq!(a, DetectorAction::Sleep { millis: 500 });
}

#[test]
fn successful_probe_produces_nothing() {
    let cfg = config();
    let (s, a) = step(
        DetectorState::Probing { node_name: "b".to_string() },
        DetectorEvent::ProbeFinished { ok: true },
        &cfg,
    );
    assert_eq!(s, DetectorState::Sleeping);
    assert_eq!(a, DetectorAction::Sleep { millis: 500 });
}

#[test]
fn failed_probe_disseminates_exactly_once() {
    let cfg = config();
    let nodes = vec![
        node("a", "10.0.0.1", &[]),
        node("b", "10.0.0.2", &[7000]),
        node("c", "10.0.0.3", &[]),
    ];

    let (s, a) = step(DetectorState::Sleeping, DetectorEvent::SleepFinished, &cfg);
    assert_eq!(a, DetectorAction::ReadRegistry);

    let (s, a) = step(s, DetectorEvent::Snapshot { nodes }, &cfg);
    assert_eq!(s, DetectorState::Probing { node_name: "b".to_string() });
    assert_eq!(
        a,
        DetectorAction::Probe { ip: "10.0.0.2".to_string(), port: 7000, timeout_millis: 250 }
    );

    let (s, a) = step(s, DetectorEvent::ProbeFinished { ok: false }, &cfg);
    assert_eq!(s, DetectorState::UpdatingHealth { node_name: "b".to_string() });
    assert_eq!(a, DetectorAction::UpdateLocalHealth { node_name: "b".to_string() });

    let (s, a) = step(s, DetectorEvent::HealthUpdated, &cfg);
    assert_eq!(s, DetectorState::Broadcasting { node_name: "b".to_string() });
    assert_eq!(
        a,
        DetectorAction::BroadcastLocal { event: FailureEvent { node_name: "b".to_string() } }
    );

    let (s, a) = step(s, DetectorEvent::BroadcastFinished { ok: true }, &cfg);
    assert_eq!(s, DetectorState::Gossiping { node_name: "b".to_string() });
    assert_eq!(a, DetectorAction::Gossip { event: FailureEvent { node_name: "b".to_string() } });

    let (s, a) = step(s, DetectorEvent::GossipFinished { ok: true }, &cfg);
    assert_eq!(s, DetectorState::Sleeping);
    assert_eq!(a, DetectorAction::Sleep { millis: 500 });
}

#[test]
fn broadcast_failure_does_not_stop_gossip() {
    let cfg = config();
    let (s, a) = step(
        DetectorState::Broadcasting { node_name: "b".to_string() },
        DetectorEvent::BroadcastFinished { ok: false },
        &cfg,
    );
    assert_eq!(s, DetectorState::Gossiping { node_name: "b".to_string() });
    assert_eq!(a, DetectorAction::Gossip { event: FailureEvent { node_name: "b".to_string() } });
}

#[test]
fn gossip_failure_does_not_stop_the_loop() {
    let cfg = config();
    let (s, a) = step(
        DetectorState::Gossiping { node_name: "b".to_string() },
        DetectorEvent::GossipFinished { ok: false },
        &cfg,
    );
    assert_eq!(s, DetectorState::Sleeping);
    assert_eq!(a, DetectorAction::Sleep { millis: 500 });
}

#[test]
fn single_eligible_node_is_always_selected() {
    let cfg = config();
    let nodes = vec![node("only", "192.168.1.9", &[9042])];
    let (s, a) = step(
        DetectorState::AwaitingSnapshot,
        DetectorEvent::Snapshot { nodes },
        &cfg,
    );
    assert_eq!(s, DetectorState::Probing { node_name: "only".to_string() });
    assert_eq!(
        a,
        DetectorAction::Probe { ip: "192.168.1.9".to_string(), port: 9042, timeout_millis: 250 }
    );
}

#[test]
fn selection_is_empirically_uniform() {
    let cfg = config();
    let names = ["a", "b", "c", "d"];
    let mut counts = [0u32; 4];
    let iterations: u32 = 8000;
    for _ in 0..iterations {
        let nodes: Vec<Node> = names
            .iter()
            .enumerate()
            .map(|(i, n)| node(n, "10.0.0.1", &[7000 + i as u16]))
            .collect();
        let (s, _) = step(
            DetectorState::AwaitingSnapshot,
            DetectorEvent::Snapshot { nodes },
            &cfg,
        );
        match s {
            DetectorState::Probing { node_name } => {
                let i = names.iter().position(|n| *n == node_name).unwrap();
                counts[i] += 1;
            }
            other => panic!("expected a probe, got {:?}", other),
        }
    }
    // expected 2000 each; allow a generous band around 1/4
    for c in counts {
        assert!(c > 1500 && c < 2500, "skewed selection: {:?}", counts);
    }
}

#[test]
fn port_choice_stays_in_the_reachable_set() {
    let cfg = config();
    let mut seen = [false; 2];
    for _ in 0..200 {
        let nodes = vec![node("n", "10.0.0.5", &[7000, 7001])];
        let (_, a) = step(
            DetectorState::AwaitingSnapshot,
            DetectorEvent::Snapshot { nodes },
            &cfg,
        );
        match a {
            DetectorAction::Probe { port, .. } => {
                assert!(port == 7000 || port == 7001);
                seen[(port - 7000) as usize] = true;
            }
            other => panic!("expected a probe, got {:?}", other),
        }
    }
    assert!(seen[0] && seen[1], "one of two reachable ports was never drawn");
}

#[test]
fn eligible_count_skips_portless_nodes() {
    let nodes = vec![
        node("a", "10.0.0.1", &[]),
        node("b", "10.0.0.2", &[7000]),
        node("c", "10.0.0.3", &[]),
        node("d", "10.0.0.4", &[7001, 7002]),
    ];
    assert_eq!(eligible_count(&nodes), 2);
    assert_eq!(nth_eligible(&nodes, 0), 1);
    assert_eq!(nth_eligible(&nodes, 1), 3);
}

#[test]
fn event_fits_state_accepts_only_the_matching_outcome() {
    let probing = DetectorState::Probing { node_name: "b".to_string() };
    assert!(event_fits_state(&probing, &DetectorEvent::ProbeFinished { ok: true }));
    assert!(!event_fits_state(&probing, &DetectorEvent::SleepFinished));
    assert!(event_fits_state(&DetectorState::Sleeping, &DetectorEvent::SleepFinished));
    assert!(!event_fits_state(
        &DetectorState::Sleeping,
        &DetectorEvent::Snapshot { nodes: Vec::new() }
    ));
    assert!(event_fits_state(&DetectorState::AwaitingSnapshot, &DetectorEvent::Snapshot {
        nodes: Vec::new()
    }));
    assert!(event_fits_state(
        &DetectorState::UpdatingHealth { node_name: "b".to_string() },
        &DetectorEvent::HealthUpdated
    ));
    assert!(event_fits_state(
        &DetectorState::Broadcasting { node_name: "b".to_string() },
        &DetectorEvent::BroadcastFinished { ok: false }
    ));
    assert!(event_fits_state(
        &DetectorState::Gossiping { node_name: "b".to_string() },
        &DetectorEvent::GossipFinished { ok: false }
    ));
}

#[test]
fn cloned_node_keeps_every_field() {
    let n = node("b", "10.0.0.2", &[7000, 7001]);
    let c = n.clone();
    assert_eq!(c.name, "b");
    assert_eq!(c.ip, "10.0.0.2");
    assert_eq!(c.shard_ports, vec![7000, 7001]);
}

//! The failure-detector state machine.
//!
//! One iteration is: sleep for the configured interval, take a registry
//! snapshot, pick one eligible peer and one of its ports uniformly at
//! random, probe it, and — if the single probe fails — update the local
//! health state, then attempt one local broadcast and one gossip
//! submission, each best-effort and independent of the other's outcome.
//! `step` makes every decision; the runtime around it performs the returned
//! action and feeds the outcome back in as the next event.

use vstd::prelude::*;
use vstd::pervasive::unreached;

use crate::random::random_below;
use crate::registry::{
    eligible_count, eligible_seq, lemma_no_ports_no_eligible, node_eligible, nth_eligible, Node,
};

verus! {

/// Immutable detector configuration, set once at construction: how long the
/// loop sleeps between probes, and how long one probe may take.
#[derive(Clone, Copy, PartialEq, Eq, Structural, Debug)]
pub struct DetectorConfig {
    pub failure_detection_interval: u64,
    pub remote_shard_connect_timeout: u64,
}

/// The notification produced by a death classification: it carries only the
/// dead node's name.
#[derive(Clone, PartialEq, Eq, Debug)]
pub struct FailureEvent {
    pub node_name: String,
}

/// Where the detector stands inside one iteration: which outcome it is
/// waiting for. Between a failed probe and the end of the iteration the
/// state carries the name of the node under suspicion.
#[derive(Clone, PartialEq, Eq, Debug)]
pub enum DetectorState {
    /// Waiting out the fixed interval before the next iteration.
    Sleeping,
    /// Waiting for a registry snapshot.
    AwaitingSnapshot,
    /// Waiting for the probe of the named node to succeed or fail.
    Probing { node_name: String },
    /// Waiting for the local health state to record the death.
    UpdatingHealth { node_name: String },
    /// Waiting for the local broadcast attempt to finish.
    Broadcasting { node_name: String },
    /// Waiting for the gossip submission attempt to finish.
    Gossiping { node_name: String },
}

/// What the runtime reports back after performing an action. Best-effort
/// outcomes carry only whether the attempt succeeded.
#[derive(Clone, PartialEq, Eq, Debug)]
pub enum DetectorEvent {
    SleepFinished,
    Snapshot { nodes: Vec<Node> },
    ProbeFinished { ok: bool },
    HealthUpdated,
    BroadcastFinished { ok: bool },
    GossipFinished { ok: bool },
}

/// What the runtime must do next on the detector's behalf.
#[derive(Clone, PartialEq, Eq, Debug)]
pub enum DetectorAction {
    /// Sleep for the given number of milliseconds.
    Sleep { millis: u64 },
    /// Take a registry snapshot and hand it back.
    ReadRegistry,
    /// Probe the given endpoint once, bounded by the given timeout.
    Probe { ip: String, port: u16, timeout_millis: u64 },
    /// Record the death in the owning context's health state; must complete
    /// before dissemination begins.
    UpdateLocalHealth { node_name: String },
    /// Broadcast the event to every shard-local context, best-effort.
    BroadcastLocal { event: FailureEvent },
    /// Submit the event to the cluster gossip layer, best-effort.
    Gossip { event: FailureEvent },
}

/// A single failed probe is sufficient and necessary to classify the probed
/// node as dead; failure subtypes are not distinguished.
pub open spec fn probe_indicates_dead(probe_ok: bool) -> bool {
    !probe_ok
}

/// Which event answers which state: the runtime may only hand the detector
/// the outcome of the action it asked for.
pub open spec fn event_fits(state: DetectorState, event: DetectorEvent) -> bool {
    match state {
        DetectorState::Sleeping => event is SleepFinished,
        DetectorState::AwaitingSnapshot => event is Snapshot,
        DetectorState::Probing { .. } => event is ProbeFinished,
        DetectorState::UpdatingHealth { .. } => event is HealthUpdated,
        DetectorState::Broadcasting { .. } => event is BroadcastFinished,
        DetectorState::Gossiping { .. } => event is GossipFinished,
    }
}

/// Runtime check of `event_fits`, for an unverified driver to test before
/// calling `step`.
pub fn event_fits_state(state: &DetectorState, event: &DetectorEvent) -> (b: bool)
    ensures
        b == event_fits(*state, *event),
{
    match (state, event) {
        (DetectorState::Sleeping, DetectorEvent::SleepFinished) => true,
        (DetectorState::AwaitingSnapshot, DetectorEvent::Snapshot { .. }) => true,
        (DetectorState::Probing { .. }, DetectorEvent::ProbeFinished { .. }) => true,
        (DetectorState::UpdatingHealth { .. }, DetectorEvent::HealthUpdated) => true,
        (DetectorState::Broadcasting { .. }, DetectorEvent::BroadcastFinished { .. }) => true,
        (DetectorState::Gossiping { .. }, DetectorEvent::GossipFinished { .. }) => true,
        _ => false,
    }
}

/// The probe the detector asks for targets this node: the suspect and the
/// probed endpoint both come from it, the port from its reachable set, and
/// the timeout from the configuration.
pub open spec fn probe_targets_node(
    next: DetectorState,
    action: DetectorAction,
    config: DetectorConfig,
    node: Node,
) -> bool {
    &&& node_eligible(node)
    &&& next matches DetectorState::Probing { node_name } && node_name@ == node.name@
    &&& action matches DetectorAction::Probe { ip, port, timeout_millis }
        && ip@ == node.ip@
        && node.shard_ports@.contains(port)
        && timeout_millis == config.remote_shard_connect_timeout
}

/// The full transition relation of one detector step. It is a relation, not
/// a function, only where the peer draw is random: there the chosen node may
/// be any eligible one.
pub open spec fn step_spec(
    state: DetectorState,
    event: DetectorEvent,
    config: DetectorConfig,
    next: DetectorState,
    action: DetectorAction,
) -> bool {
    match (state, event) {
        (DetectorState::Sleeping, DetectorEvent::SleepFinished) => {
            next == DetectorState::AwaitingSnapshot && action == DetectorAction::ReadRegistry
        },
        (DetectorState::AwaitingSnapshot, DetectorEvent::Snapshot { nodes }) => {
            if eligible_seq(nodes@).len() == 0 {
                &&& next == DetectorState::Sleeping
                &&& action == (DetectorAction::Sleep {
                    millis: config.failure_detection_interval,
                })
            } else {
                exists|i: int|
                    0 <= i < nodes@.len() && #[trigger] probe_targets_node(
                        next,
                        action,
                        config,
                        nodes@[i],
                    )
            }
        },
        (DetectorState::Probing { node_name }, DetectorEvent::ProbeFinished { ok }) => {
            if probe_indicates_dead(ok) {
                &&& next matches DetectorState::UpdatingHealth { node_name: n } && n@
                    == node_name@
                &&& action matches DetectorAction::UpdateLocalHealth { node_name: n } && n@
                    == node_name@
            } else {
                &&& next == DetectorState::Sleeping
                &&& action == (DetectorAction::Sleep {
                    millis: config.failure_detection_interval,
                })
            }
        },
        (DetectorState::UpdatingHealth { node_name }, DetectorEvent::HealthUpdated) => {
            &&& next matches DetectorState::Broadcasting { node_name: n } && n@ == node_name@
            &&& action matches DetectorAction::BroadcastLocal { event } && event.node_name@
                == node_name@
        },
        (DetectorState::Broadcasting { node_name }, DetectorEvent::BroadcastFinished { .. }) => {
            &&& next matches DetectorState::Gossiping { node_name: n } && n@ == node_name@
            &&& action matches DetectorAction::Gossip { event } && event.node_name@ == node_name@
        },
        (DetectorState::Gossiping { .. }, DetectorEvent::GossipFinished { .. }) => {
            &&& next == DetectorState::Sleeping
            &&& action == (DetectorAction::Sleep { millis: config.failure_detection_interval })
        },
        _ => false,
    }
}

/// Where the loop begins: about to sleep one full interval before the first
/// probe.
pub fn initial(config: &DetectorConfig) -> (r: (DetectorState, DetectorAction))
    ensures
        r.0 == DetectorState::Sleeping,
        r.1 == (DetectorAction::Sleep { millis: config.failure_detection_interval }),
{
    (
        DetectorState::Sleeping,
        DetectorAction::Sleep { millis: config.failure_detection_interval },
    )
}

/// One decision of the detector: consume the outcome of the previous action
/// and say what the runtime must do next.
pub fn step(state: DetectorState, event: DetectorEvent, config: &DetectorConfig) -> (r: (
    DetectorState,
    DetectorAction,
))
    requires
        event_fits(state, event),
    ensures
        step_spec(state, event, *config, r.0, r.1),
{
    match (state, event) {
        (DetectorState::Sleeping, DetectorEvent::SleepFinished) => {
            (DetectorState::AwaitingSnapshot, DetectorAction::ReadRegistry)
        },
        (DetectorState::AwaitingSnapshot, DetectorEvent::Snapshot { nodes }) => {
            let c = eligible_count(&nodes);
            if c == 0 {
                (
                    DetectorState::Sleeping,
                    DetectorAction::Sleep { millis: config.failure_detection_interval },
                )
            } else {
                let k = random_below(c);
                let i = nth_eligible(&nodes, k);
                let port_count = nodes[i].shard_ports.len();
                let j = random_below(port_count);
                let port = nodes[i].shard_ports[j];
                let next = DetectorState::Probing { node_name: nodes[i].name.clone() };
                let action = DetectorAction::Probe {
                    ip: nodes[i].ip.clone(),
                    port,
                    timeout_millis: config.remote_shard_connect_timeout,
                };
                proof {
                    assert(nodes@[i as int].shard_ports@[j as int] == port);
                    assert(probe_targets_node(next, action, *config, nodes@[i as int]));
                }
                (next, action)
            }
        },
        (DetectorState::Probing { node_name }, DetectorEvent::ProbeFinished { ok }) => {
            if ok {
                (
                    DetectorState::Sleeping,
                    DetectorAction::Sleep { millis: config.failure_detection_interval },
                )
            } else {
                let suspect = node_name.clone();
                (
                    DetectorState::UpdatingHealth { node_name: suspect },
                    DetectorAction::UpdateLocalHealth { node_name },
                )
            }
        },
        (DetectorState::UpdatingHealth { node_name }, DetectorEvent::HealthUpdated) => {
            let suspect = node_name.clone();
            (
                DetectorState::Broadcasting { node_name: suspect },
                DetectorAction::BroadcastLocal { event: FailureEvent { node_name } },
            )
        },
        (DetectorState::Broadcasting { node_name }, DetectorEvent::BroadcastFinished { .. }) => {
            let suspect = node_name.clone();
            (
                DetectorState::Gossiping { node_name: suspect },
                DetectorAction::Gossip { event: FailureEvent { node_name } },
            )
        },
        (DetectorState::Gossiping { .. }, DetectorEvent::GossipFinished { .. }) => {
            (
                DetectorState::Sleeping,
                DetectorAction::Sleep { millis: config.failure_detection_interval },
            )
        },
        _ => {
            proof {
                assert(false);
            }
            unreached()
        },
    }
}

/// A snapshot in which every node has an empty reachable-port set leads to
/// no probe and no dissemination: the detector goes straight back to sleep
/// for one full interval.
pub proof fn lemma_empty_ports_snapshot_sleeps(
    event: DetectorEvent,
    config: DetectorConfig,
    next: DetectorState,
    action: DetectorAction,
)
    requires
        event matches DetectorEvent::Snapshot { nodes } && forall|i: int|
            0 <= i < nodes@.len() ==> nodes@[i].shard_ports@.len() == 0,
        step_spec(DetectorState::AwaitingSnapshot, event, config, next, action),
    ensures
        next == DetectorState::Sleeping,
        action == (DetectorAction::Sleep { millis: config.failure_detection_interval }),
{
    lemma_no_ports_no_eligible(event->nodes@);
}

/// A successful probe produces no failure event and no dissemination: the
/// detector simply sleeps for one full interval again.
pub proof fn lemma_probe_success_no_dissemination(
    state: DetectorState,
    config: DetectorConfig,
    next: DetectorState,
    action: DetectorAction,
)
    requires
        state is Probing,
        step_spec(state, (DetectorEvent::ProbeFinished { ok: true }), config, next, action),
    ensures
        next == DetectorState::Sleeping,
        action == (DetectorAction::Sleep { millis: config.failure_detection_interval }),
{
}

/// A failed probe of a node drives the detector through exactly one
/// dissemination pass: first the local health update, then one local
/// broadcast attempt, then one gossip attempt — all three carrying that same
/// node, in that order, each attempted exactly once whatever the outcome of
/// the two best-effort channels — and then one full sleep.
pub proof fn lemma_probe_failure_disseminates_once(
    name: String,
    config: DetectorConfig,
    s1: DetectorState,
    a1: DetectorAction,
    s2: DetectorState,
    a2: DetectorAction,
    broadcast_ok: bool,
    s3: DetectorState,
    a3: DetectorAction,
    gossip_ok: bool,
    s4: DetectorState,
    a4: DetectorAction,
)
    requires
        step_spec(
            (DetectorState::Probing { node_name: name }),
            (DetectorEvent::ProbeFinished { ok: false }),
            config,
            s1,
            a1,
        ),
        step_spec(s1, DetectorEvent::HealthUpdated, config, s2, a2),
        step_spec(s2, (DetectorEvent::BroadcastFinished { ok: broadcast_ok }), config, s3, a3),
        step_spec(s3, (DetectorEvent::GossipFinished { ok: gossip_ok }), config, s4, a4),
    ensures
        a1 matches DetectorAction::UpdateLocalHealth { node_name } && node_name@ == name@,
        a2 matches DetectorAction::BroadcastLocal { event } && event.node_name@ == name@,
        a3 matches DetectorAction::Gossip { event } && event.node_name@ == name@,
        s4 == DetectorState::Sleeping,
        a4 == (DetectorAction::Sleep { millis: config.failure_detection_interval }),
{
}

/// The gossip submission is attempted whatever the outcome of the local
/// broadcast: a failed broadcast does not suppress it, and it carries the
/// same dead node.
pub proof fn lemma_broadcast_outcome_ignored(
    name: String,
    broadcast_ok: bool,
    config: DetectorConfig,
    next: DetectorState,
    action: DetectorAction,
)
    requires
        step_spec(
            (DetectorState::Broadcasting { node_name: name }),
            (DetectorEvent::BroadcastFinished { ok: broadcast_ok }),
            config,
            next,
            action,
        ),
    ensures
        next matches DetectorState::Gossiping { node_name } && node_name@ == name@,
        action matches DetectorAction::Gossip { event } && event.node_name@ == name@,
{
}

/// The loop survives a failed gossip submission exactly as it survives a
/// successful one: either way the iteration ends in one full sleep.
pub proof fn lemma_gossip_outcome_ignored(
    name: String,
    gossip_ok: bool,
    config: DetectorConfig,
    next: DetectorState,
    action: DetectorAction,
)
    requires
        step_spec(
            (DetectorState::Gossiping { node_name: name }),
            (DetectorEvent::GossipFinished { ok: gossip_ok }),
            config,
            next,
            action,
        ),
    ensures
        next == DetectorState::Sleeping,
        action == (DetectorAction::Sleep { millis: config.failure_detection_interval }),
{
}

/// The detector only ever sleeps for the configured interval: no outcome of
/// any step shortens or extends the cadence.
pub proof fn lemma_fixed_cadence(
    state: DetectorState,
    event: DetectorEvent,
    config: DetectorConfig,
    next: DetectorState,
    action: DetectorAction,
)
    requires
        step_spec(state, event, config, next, action),
    ensures
        action matches DetectorAction::Sleep { millis } ==> millis
            == config.failure_detection_interval,
{
}

} // verus!

//! Listener planning and supervision decisions of the forwarding engine.
//!
//! A configuration is a sequence of mappings, each carrying SSH credentials
//! and an ordered list of port rules. The engine opens one local listener
//! per port rule. This module decides which listeners a configuration
//! yields, what binding them may produce under the operating system's
//! one-listener-per-port rule, and what the accept loop of one listener
//! does with each event it observes. The socket work itself (bind, accept)
//! is the embedding program's business.

use vstd::prelude::*;
use vstd::set_lib::set_int_range;
use crate::error::ForwardingError;

verus! {

/// One local-to-remote port pairing under a mapping: the engine listens on
/// `local_port` and forwards each accepted connection to
/// `remote_host:remote_port` through the mapping's SSH endpoint.
/// `local_host` is accepted but not honored: the listener always binds the
/// wildcard address. `label` is free-form display text.
#[derive(Debug, Clone)]
pub struct Port {
    pub remote_host: String,
    pub remote_port: u16,
    pub local_port: u16,
    pub local_host: Option<String>,
    pub label: String,
}

/// One SSH endpoint's credentials plus its ordered list of port rules.
#[derive(Debug, Clone)]
pub struct Forwarding {
    pub ssh_host: String,
    pub ssh_password: String,
    pub ssh_username: String,
    pub ssh_port: u16,
    pub ports: Vec<Port>,
}

/// The number of port rules across a sequence of mappings.
pub open spec fn total_rules(ms: Seq<Forwarding>) -> nat
    decreases ms.len(),
{
    if ms.len() == 0 {
        0
    } else {
        total_rules(ms.drop_last()) + ms.last().ports@.len()
    }
}

/// Whether the pair addresses a port rule: its second component indexes the
/// rule list of the mapping its first component indexes.
pub open spec fn is_rule_index(ms: Seq<Forwarding>, pr: (usize, usize)) -> bool {
    pr.0 < ms.len() && pr.1 < ms[pr.0 as int].ports@.len()
}

/// Lexicographic order on (mapping, rule) index pairs.
pub open spec fn pair_below(a: (usize, usize), b: (usize, usize)) -> bool {
    a.0 < b.0 || (a.0 == b.0 && a.1 < b.1)
}

proof fn lemma_total_rules_take(ms: Seq<Forwarding>, i: int)
    requires
        0 <= i < ms.len(),
    ensures
        total_rules(ms.take(i + 1)) == total_rules(ms.take(i)) + ms[i].ports@.len(),
{
    assert(ms.take(i + 1).drop_last() =~= ms.take(i));
    assert(ms.take(i + 1).last() == ms[i]);
}

/// Enumerates every port rule of the configuration, one listener per rule,
/// in configuration order: the result holds exactly the (mapping, rule)
/// index pairs, lexicographically sorted. A configuration with no mappings,
/// or none with rules, yields an empty plan.
pub fn plan_listeners(ms: &Vec<Forwarding>) -> (plan: Vec<(usize, usize)>)
    ensures
        plan@.len() == total_rules(ms@),
        forall|k: int| 0 <= k < plan@.len() ==> is_rule_index(ms@, #[trigger] plan@[k]),
        forall|k1: int, k2: int|
            0 <= k1 < k2 < plan@.len() ==> pair_below(#[trigger] plan@[k1], #[trigger] plan@[k2]),
        forall|pr: (usize, usize)| #[trigger] is_rule_index(ms@, pr) ==> plan@.contains(pr),
{
    let mut plan: Vec<(usize, usize)> = Vec::new();
    let mut i: usize = 0;
    while i < ms.len()
        invariant
            i <= ms@.len(),
            plan@.len() == total_rules(ms@.take(i as int)),
            forall|k: int|
                0 <= k < plan@.len()
                    ==> is_rule_index(ms@, #[trigger] plan@[k]) && plan@[k].0 < i,
            forall|k1: int, k2: int|
                0 <= k1 < k2 < plan@.len()
                    ==> pair_below(#[trigger] plan@[k1], #[trigger] plan@[k2]),
            forall|pr: (usize, usize)|
                #[trigger] is_rule_index(ms@, pr) && pr.0 < i ==> plan@.contains(pr),
        decreases ms@.len() - i,
    {
        let mut j: usize = 0;
        while j < ms[i].ports.len()
            invariant
                i < ms@.len(),
                j <= ms@[i as int].ports@.len(),
                plan@.len() == total_rules(ms@.take(i as int)) + j,
                forall|k: int|
                    0 <= k < plan@.len()
                        ==> is_rule_index(ms@, #[trigger] plan@[k])
                            && (plan@[k].0 < i || (plan@[k].0 == i && plan@[k].1 < j)),
                forall|k1: int, k2: int|
                    0 <= k1 < k2 < plan@.len()
                        ==> pair_below(#[trigger] plan@[k1], #[trigger] plan@[k2]),
                forall|pr: (usize, usize)|
                    #[trigger] is_rule_index(ms@, pr)
                        && (pr.0 < i || (pr.0 == i && pr.1 < j)) ==> plan@.contains(pr),
            decreases ms@[i as int].ports@.len() - j,
        {
            let ghost old_plan = plan@;
            plan.push((i, j));
            proof {
                assert forall|pr: (usize, usize)|
                    #[trigger] is_rule_index(ms@, pr)
                        && (pr.0 < i || (pr.0 == i && pr.1 < j + 1)) implies plan@.contains(
                    pr,
                ) by {
                    if pr.0 < i || (pr.0 == i && pr.1 < j) {
                        let k = choose|k: int| 0 <= k < old_plan.len() && old_plan[k] == pr;
                        assert(plan@[k] == pr);
                    } else {
                        assert(plan@[plan@.len() - 1] == pr);
                    }
                }
            }
            j = j + 1;
        }
        proof {
            lemma_total_rules_take(ms@, i as int);
        }
        i = i + 1;
    }
    proof {
        assert(ms@.take(ms@.len() as int) =~= ms@);
    }
    plan
}

/// The local port that a plan entry asks to bind.
pub open spec fn local_port_of(ms: Seq<Forwarding>, pr: (usize, usize)) -> u16 {
    ms[pr.0 as int].ports@[pr.1 as int].local_port
}

/// Model of the operating system's bind: binding the k-th planned listener
/// succeeds exactly when no earlier plan entry asked for the same local
/// port (the earlier bind holds the port for the process's lifetime).
pub open spec fn bind_succeeds(ms: Seq<Forwarding>, plan: Seq<(usize, usize)>, k: int) -> bool {
    forall|k2: int|
        0 <= k2 < k ==> local_port_of(ms, #[trigger] plan[k2]) != local_port_of(ms, plan[k])
}

/// The plan indices whose listener starts under the bind model.
pub open spec fn started_indices(ms: Seq<Forwarding>, plan: Seq<(usize, usize)>) -> Set<int> {
    Set::new(|k: int| 0 <= k < plan.len() && bind_succeeds(ms, plan, k))
}

/// With no two rules asking for the same local port, every bind in the plan
/// succeeds: a configuration with K port rules yields exactly K listening
/// sockets, each on its own configured local port.
pub proof fn lemma_distinct_ports_all_start(ms: Seq<Forwarding>, plan: Seq<(usize, usize)>)
    requires
        forall|k1: int, k2: int|
            0 <= k1 < k2 < plan.len()
                ==> local_port_of(ms, #[trigger] plan[k1]) != local_port_of(
                ms,
                #[trigger] plan[k2],
            ),
    ensures
        forall|k: int| 0 <= k < plan.len() ==> bind_succeeds(ms, plan, k),
        started_indices(ms, plan).len() == plan.len(),
{
    assert(started_indices(ms, plan) =~= set_int_range(0, plan.len() as int));
    vstd::set_lib::lemma_int_range(0, plan.len() as int);
}

/// If exactly one pair of rules collides on a local port, the earlier
/// rule's bind succeeds and the later rule's bind fails; every other rule
/// still starts. The collision is contained to the one duplicate listener.
pub proof fn lemma_duplicate_port_contained(
    ms: Seq<Forwarding>,
    plan: Seq<(usize, usize)>,
    a: int,
    b: int,
)
    requires
        0 <= a < b < plan.len(),
        local_port_of(ms, plan[a]) == local_port_of(ms, plan[b]),
        forall|k1: int, k2: int|
            0 <= k1 < k2 < plan.len() && !(k1 == a && k2 == b)
                ==> local_port_of(ms, #[trigger] plan[k1]) != local_port_of(
                ms,
                #[trigger] plan[k2],
            ),
    ensures
        bind_succeeds(ms, plan, a),
        !bind_succeeds(ms, plan, b),
        forall|k: int| 0 <= k < plan.len() && k != b ==> bind_succeeds(ms, plan, k),
        started_indices(ms, plan).len() == plan.len() - 1,
{
    assert(!bind_succeeds(ms, plan, b)) by {
        assert(local_port_of(ms, plan[a]) == local_port_of(ms, plan[b]));
    }
    assert(started_indices(ms, plan) =~= set_int_range(0, plan.len() as int).remove(b));
    vstd::set_lib::lemma_int_range(0, plan.len() as int);
}

/// The error reported when binding the local socket for rule `p` fails.
/// The rule is skipped entirely; the rest of the configuration proceeds.
pub fn bind_error(p: &Port) -> (e: ForwardingError)
    ensures
        e matches ForwardingError::BindError { label, local_port } && label@ == p.label@
            && local_port == p.local_port,
{
    ForwardingError::BindError { label: p.label.clone(), local_port: p.local_port }
}

/// The error reported when the direct-tcpip channel to rule `p`'s remote
/// destination is refused. Only that connection attempt is discarded.
pub fn channel_error(p: &Port) -> (e: ForwardingError)
    ensures
        e matches ForwardingError::RemoteChannelError { label, remote_host, remote_port }
            && label@ == p.label@ && remote_host@ == p.remote_host@
            && remote_port == p.remote_port,
{
    ForwardingError::RemoteChannelError {
        label: p.label.clone(),
        remote_host: p.remote_host.clone(),
        remote_port: p.remote_port,
    }
}

/// Whether a mapping gets a best-effort connectivity probe before its
/// listeners start: only mappings with at least one port rule are probed.
/// The probe is purely diagnostic; its failure prevents nothing.
pub fn should_probe(f: &Forwarding) -> (r: bool)
    ensures
        r == (f.ports@.len() > 0),
{
    f.ports.len() > 0
}

/// Whether the probe runs before starting the k-th planned listener: each
/// mapping is probed exactly once, right before its first rule. Since only
/// mappings with at least one rule appear in the plan, exactly the
/// mappings that `should_probe` selects get their probe.
pub fn probe_before(plan: &Vec<(usize, usize)>, k: usize) -> (r: bool)
    requires
        k < plan@.len(),
    ensures
        r == (k == 0 || plan@[k - 1].0 != plan@[k as int].0),
{
    k == 0 || plan[k - 1].0 != plan[k].0
}

/// What one iteration of a listener's accept loop observed.
#[derive(Debug)]
pub enum ListenerEvent {
    /// A local connection was accepted.
    Accepted,
    /// The listening socket reported an unrecoverable error.
    AcceptFailed,
    /// Session or channel establishment for the accepted connection failed.
    SetupFailed(ForwardingError),
    /// Session and channel establishment both succeeded.
    TunnelReady,
}

/// What the accept loop must do next.
#[derive(Debug)]
pub enum ListenerAction {
    /// Establish a session and a channel for the accepted connection.
    EstablishTunnel,
    /// Hand the connection and its channel to an independently running
    /// relay, then immediately accept again.
    SpawnRelay,
    /// Report the carried error, discard the failed connection attempt, and
    /// accept again: the listener stays up.
    ContinueAccept(ForwardingError),
    /// The listener is permanently down; surface the carried error. Other
    /// listeners are unaffected.
    Shutdown(ForwardingError),
}

/// The accept loop of one listener, as a decision per observed event: an
/// accepted connection gets a tunnel; a finished tunnel gets a relay; a
/// failed setup is contained to that one connection attempt; only the
/// listening socket's own error takes the listener down.
pub fn listener_step(p: &Port, ev: ListenerEvent) -> (a: ListenerAction)
    ensures
        match ev {
            ListenerEvent::Accepted => a is EstablishTunnel,
            ListenerEvent::AcceptFailed => a matches ListenerAction::Shutdown(e)
                && e matches ForwardingError::ListeningError { label, local_port }
                && label@ == p.label@ && local_port == p.local_port,
            ListenerEvent::SetupFailed(err) => a matches ListenerAction::ContinueAccept(e)
                && e == err,
            ListenerEvent::TunnelReady => a is SpawnRelay,
        },
{
    match ev {
        ListenerEvent::Accepted => ListenerAction::EstablishTunnel,
        ListenerEvent::AcceptFailed => ListenerAction::Shutdown(
            ForwardingError::ListeningError {
                label: p.label.clone(),
                local_port: p.local_port,
            },
        ),
        ListenerEvent::SetupFailed(err) => ListenerAction::ContinueAccept(err),
        ListenerEvent::TunnelReady => ListenerAction::SpawnRelay,
    }
}

} // verus!

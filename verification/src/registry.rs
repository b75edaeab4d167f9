//! The detector's picture of the peer registry: a snapshot of known nodes
//! and the subset of them that can be probed.

use vstd::prelude::*;

verus! {

/// A cluster member as a registry snapshot reports it: a unique name, a host
/// address, and the shard ports reachable on that host.
#[derive(Debug, PartialEq, Eq)]
pub struct Node {
    pub name: String,
    pub ip: String,
    pub shard_ports: Vec<u16>,
}

impl Clone for Node {
    fn clone(&self) -> (r: Self)
        ensures
            r.name == self.name,
            r.ip == self.ip,
            r.shard_ports@ == self.shard_ports@,
    {
        let mut ports: Vec<u16> = Vec::new();
        for j in 0..self.shard_ports.len()
            invariant
                ports@ == self.shard_ports@.take(j as int),
        {
            ports.push(self.shard_ports[j]);
        }
        proof {
            assert(ports@ =~= self.shard_ports@);
        }
        Node { name: self.name.clone(), ip: self.ip.clone(), shard_ports: ports }
    }
}

/// A node is eligible for probing only if it exposes at least one reachable
/// shard port.
pub open spec fn node_eligible(node: Node) -> bool {
    node.shard_ports@.len() > 0
}

/// The eligible nodes of a snapshot, in snapshot order.
pub open spec fn eligible_seq(nodes: Seq<Node>) -> Seq<Node>
    decreases nodes.len(),
{
    if nodes.len() == 0 {
        Seq::empty()
    } else if node_eligible(nodes.last()) {
        eligible_seq(nodes.drop_last()).push(nodes.last())
    } else {
        eligible_seq(nodes.drop_last())
    }
}

/// The eligible nodes of a prefix are a prefix of the eligible nodes of the
/// whole snapshot.
pub proof fn lemma_eligible_seq_prefix(nodes: Seq<Node>, j: int)
    requires
        0 <= j <= nodes.len(),
    ensures
        eligible_seq(nodes.take(j)).len() <= eligible_seq(nodes).len(),
        forall|m: int|
            0 <= m < eligible_seq(nodes.take(j)).len()
                ==> eligible_seq(nodes.take(j))[m] == eligible_seq(nodes)[m],
    decreases nodes.len() - j,
{
    if j == nodes.len() {
        assert(nodes.take(j) =~= nodes);
    } else {
        assert(nodes.take(j + 1).drop_last() =~= nodes.take(j));
        assert(nodes.take(j + 1).last() == nodes[j]);
        lemma_eligible_seq_prefix(nodes, j + 1);
    }
}

/// A longer prefix of the snapshot never holds fewer eligible nodes.
proof fn lemma_eligible_count_monotone(nodes: Seq<Node>, j1: int, j2: int)
    requires
        0 <= j1 <= j2 <= nodes.len(),
    ensures
        eligible_seq(nodes.take(j1)).len() <= eligible_seq(nodes.take(j2)).len(),
    decreases j2 - j1,
{
    if j1 < j2 {
        assert(nodes.take(j1 + 1).drop_last() =~= nodes.take(j1));
        lemma_eligible_count_monotone(nodes, j1 + 1, j2);
    }
}

/// Past an eligible node the count of eligible nodes has strictly grown.
proof fn lemma_eligible_count_strictly_grows(nodes: Seq<Node>, i: int, j: int)
    requires
        0 <= i < j <= nodes.len(),
        node_eligible(nodes[i]),
    ensures
        eligible_seq(nodes.take(i)).len() < eligible_seq(nodes.take(j)).len(),
{
    assert(nodes.take(i + 1).drop_last() =~= nodes.take(i));
    assert(nodes.take(i + 1).last() == nodes[i]);
    lemma_eligible_count_monotone(nodes, i + 1, j);
}

/// The draw pins the probed node: an eligible snapshot position is
/// determined by how many eligible nodes precede it. With `nth_eligible`,
/// which returns the position preceded by exactly `k` eligible nodes, this
/// makes selection a bijection between draws and eligible positions, so each
/// eligible node is probed by exactly one value of the draw.
pub proof fn lemma_draw_determines_position(nodes: Seq<Node>, i1: int, i2: int)
    requires
        0 <= i1 < nodes.len(),
        0 <= i2 < nodes.len(),
        node_eligible(nodes[i1]),
        node_eligible(nodes[i2]),
        eligible_seq(nodes.take(i1)).len() == eligible_seq(nodes.take(i2)).len(),
    ensures
        i1 == i2,
{
    if i1 < i2 {
        lemma_eligible_count_strictly_grows(nodes, i1, i2);
    }
    if i2 < i1 {
        lemma_eligible_count_strictly_grows(nodes, i2, i1);
    }
}

/// A snapshot in which no node exposes a port has no eligible node.
pub proof fn lemma_no_ports_no_eligible(nodes: Seq<Node>)
    requires
        forall|i: int| 0 <= i < nodes.len() ==> nodes[i].shard_ports@.len() == 0,
    ensures
        eligible_seq(nodes).len() == 0,
    decreases nodes.len(),
{
    if nodes.len() > 0 {
        lemma_no_ports_no_eligible(nodes.drop_last());
    }
}

/// Counts the nodes of a snapshot that are eligible for probing.
pub fn eligible_count(nodes: &Vec<Node>) -> (c: usize)
    ensures
        c == eligible_seq(nodes@).len(),
{
    let mut c: usize = 0;
    for i in 0..nodes.len()
        invariant
            c == eligible_seq(nodes@.take(i as int)).len(),
            c <= i,
    {
        proof {
            assert(nodes@.take(i + 1).drop_last() =~= nodes@.take(i as int));
            assert(nodes@.take(i + 1).last() == nodes@[i as int]);
        }
        if nodes[i].shard_ports.len() > 0 {
            c = c + 1;
        }
    }
    proof {
        assert(nodes@.take(nodes@.len() as int) =~= nodes@);
    }
    c
}

/// Finds the position in the snapshot of the `k`-th eligible node. The
/// position is pinned exactly: exactly `k` eligible nodes precede it, so
/// distinct draws of `k` land on distinct snapshot positions.
pub fn nth_eligible(nodes: &Vec<Node>, k: usize) -> (i: usize)
    requires
        k < eligible_seq(nodes@).len(),
    ensures
        i < nodes@.len(),
        node_eligible(nodes@[i as int]),
        eligible_seq(nodes@.take(i as int)).len() == k,
        nodes@[i as int] == eligible_seq(nodes@)[k as int],
{
    let mut c: usize = 0;
    for i in 0..nodes.len()
        invariant
            k < eligible_seq(nodes@).len(),
            c == eligible_seq(nodes@.take(i as int)).len(),
            c <= k,
    {
        proof {
            assert(nodes@.take(i + 1).drop_last() =~= nodes@.take(i as int));
            assert(nodes@.take(i + 1).last() == nodes@[i as int]);
        }
        if nodes[i].shard_ports.len() > 0 {
            if c == k {
                proof {
                    lemma_eligible_seq_prefix(nodes@, i + 1);
                }
                return i;
            }
            c = c + 1;
        }
    }
    proof {
        assert(nodes@.take(nodes@.len() as int) =~= nodes@);
    }
    unreached()
}

} // verus!

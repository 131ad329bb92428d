//! Conversion of a cluster's membership between the engine's form, where a
//! voter configuration is a set of node ids, and the wire form, where it is
//! a map with the node ids as keys.

use crate::protobuf;
use crate::protobuf::NodeIdSet;
use crate::pb_impl::log_id_from_wire;
use crate::pb_impl::log_id_to_wire;
use crate::raft_types::ClientWriteResponse;
use crate::raft_types::LogId;
use crate::raft_types::Membership;
use std::collections::BTreeMap;
use std::collections::BTreeSet;
use vstd::laws_cmp::group_laws_cmp;
use vstd::prelude::*;
use vstd::std_specs::btree::group_btree_axioms;

verus! {

/// Whether `wire` is the wire form of `membership`: the same nodes, and
/// configuration by configuration the same voters.
pub open spec fn membership_matches(membership: Membership, wire: protobuf::Membership) -> bool {
    &&& wire.nodes == membership.nodes
    &&& wire.configs@.len() == membership.configs@.len()
    &&& forall|i: int|
        0 <= i < wire.configs@.len() ==> (#[trigger] wire.configs@[i]).node_ids@.dom()
            == membership.configs@[i]@
}

/// The elements of the first `n` places of `s`, without the references.
pub open spec fn seen<T>(s: Seq<&T>, n: int) -> Set<T> {
    s.take(n).unref().to_set()
}

/// All elements of `s`, without the references.
pub open spec fn all_of<T>(s: Seq<&T>) -> Set<T> {
    s.unref().to_set()
}

proof fn lemma_seen_next<T>(s: Seq<&T>, n: int)
    requires
        0 <= n < s.len(),
    ensures
        seen(s, n + 1) == seen(s, n).insert(*s[n]),
        seen(s, s.len() as int) == all_of(s),
        seen(s, 0) == Set::<T>::empty(),
{
    let a = s.take(n).unref();
    let b = s.take(n + 1).unref();
    assert(b =~= a.push(*s[n]));
    assert forall|x: T| b.to_set().contains(x) <==> a.to_set().insert(*s[n]).contains(x) by {
        if b.contains(x) {
            let i = choose|i: int| 0 <= i < b.len() && b[i] == x;
            if i < a.len() {
                assert(a[i] == x);
            }
        }
        if a.contains(x) {
            let i = choose|i: int| 0 <= i < a.len() && a[i] == x;
            assert(b[i] == x);
        }
        if x == *s[n] {
            assert(b[n] == x);
        }
    }
    assert(seen(s, n + 1) =~= seen(s, n).insert(*s[n]));
    assert(s.take(s.len() as int) =~= s);
    assert(seen(s, 0) =~= Set::<T>::empty());
}

/// A voter configuration in wire form: a map with the voters as its keys.
pub fn node_id_set(config: &BTreeSet<u64>) -> (wire: NodeIdSet)
    ensures
        wire.node_ids@.dom() == config@,
{
    broadcast use {group_btree_axioms, group_laws_cmp};

    let mut node_ids: BTreeMap<u64, ()> = BTreeMap::new();
    for nid in iter: config.iter()
        invariant
            all_of(iter.seq()) == config@,
            node_ids@.dom() =~= seen(iter.seq(), iter.index()),
            iter.index() == iter.seq().len() ==> node_ids@.dom() == config@,
    {
        proof {
            lemma_seen_next(iter.seq(), iter.index());
        }
        node_ids.insert(*nid, ());
    }
    NodeIdSet { node_ids }
}

/// The voters of a configuration in wire form.
pub fn node_ids(wire: &NodeIdSet) -> (config: BTreeSet<u64>)
    ensures
        config@ == wire.node_ids@.dom(),
{
    broadcast use {group_btree_axioms, group_laws_cmp};

    let mut config: BTreeSet<u64> = BTreeSet::new();
    for nid in iter: wire.node_ids.keys()
        invariant
            all_of(iter.seq()) == wire.node_ids@.dom(),
            config@ =~= seen(iter.seq(), iter.index()),
            iter.index() == iter.seq().len() ==> config@ == wire.node_ids@.dom(),
    {
        proof {
            lemma_seen_next(iter.seq(), iter.index());
        }
        config.insert(*nid);
    }
    config
}

impl Membership {
    /// The wire form of this membership.
    pub fn into_proto(self) -> (wire: protobuf::Membership)
        ensures
            membership_matches(self, wire),
    {
        let mut configs: Vec<NodeIdSet> = Vec::new();
        let mut i: usize = 0;
        while i < self.configs.len()
            invariant
                i <= self.configs@.len(),
                configs@.len() == i,
                forall|j: int|
                    0 <= j < i ==> (#[trigger] configs@[j]).node_ids@.dom() == self.configs@[j]@,
            decreases self.configs@.len() - i,
        {
            configs.push(node_id_set(&self.configs[i]));
            i = i + 1;
        }
        protobuf::Membership { configs, nodes: self.nodes }
    }

    /// The membership that a wire message stands for.
    pub fn from_proto(value: protobuf::Membership) -> (membership: Membership)
        ensures
            membership_matches(membership, value),
    {
        let mut configs: Vec<BTreeSet<u64>> = Vec::new();
        let mut i: usize = 0;
        while i < value.configs.len()
            invariant
                i <= value.configs@.len(),
                configs@.len() == i,
                forall|j: int|
                    0 <= j < i ==> (#[trigger] configs@[j])@ == value.configs@[j].node_ids@.dom(),
            decreases value.configs@.len() - i,
        {
            configs.push(node_ids(&value.configs[i]));
            i = i + 1;
        }
        Membership { configs, nodes: value.nodes }
    }
}

/// Whether `wire` is the wire form of an optional membership.
pub open spec fn opt_membership_matches(
    membership: Option<Membership>,
    wire: Option<protobuf::Membership>,
) -> bool {
    match membership {
        Some(m) => wire matches Some(w) && membership_matches(m, w),
        None => wire is None,
    }
}

impl ClientWriteResponse {
    /// The wire form of the answer to a client's write.
    pub fn into_proto(self) -> (wire: protobuf::ClientWriteResponse)
        ensures
            wire.log_id == Some(log_id_to_wire(self.log_id)),
            wire.data == Some(self.data),
            opt_membership_matches(self.membership, wire.membership),
    {
        protobuf::ClientWriteResponse {
            log_id: Some(protobuf::LogId::from(self.log_id)),
            data: Some(self.data),
            membership: match self.membership {
                Some(m) => Some(m.into_proto()),
                None => None,
            },
        }
    }

    /// The answer that a wire message stands for. The message must carry a
    /// log id and the state machine's response.
    pub fn from_proto(r: protobuf::ClientWriteResponse) -> (response: ClientWriteResponse)
        requires
            r.log_id is Some,
            r.data is Some,
        ensures
            response.log_id == log_id_from_wire(r.log_id->0),
            response.data == r.data->0,
            opt_membership_matches(response.membership, r.membership),
    {
        ClientWriteResponse {
            log_id: LogId::from(r.log_id.unwrap()),
            data: r.data.unwrap(),
            membership: match r.membership {
                Some(m) => Some(Membership::from_proto(m)),
                None => None,
            },
        }
    }
}

/// A membership that went over the wire has the nodes and, configuration by
/// configuration, the voters of the one that was sent.
pub proof fn lemma_membership_round_trip(
    sent: Membership,
    wire: protobuf::Membership,
    received: Membership,
)
    requires
        membership_matches(sent, wire),
        membership_matches(received, wire),
    ensures
        received.nodes == sent.nodes,
        received.configs@.len() == sent.configs@.len(),
        forall|i: int|
            0 <= i < sent.configs@.len() ==> (#[trigger] received.configs@[i])@ == sent.configs@[i]@,
{
    assert forall|i: int| 0 <= i < sent.configs@.len() implies (#[trigger] received.configs@[i])@
        == sent.configs@[i]@ by {
        assert(wire.configs@[i].node_ids@.dom() == sent.configs@[i]@);
    }
}

} // verus!

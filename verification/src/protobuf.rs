//! The messages that peers exchange, field for field as they travel.
//!
//! Every field that the wire format lets a sender leave out is an `Option`.

use std::collections::BTreeMap;
use crate::text::decimal;
use crate::text::decimal_string;
use vstd::prelude::*;
use vstd::string::StringExecFns;

verus! {

/// A leader at a given term.
#[derive(Clone, Copy, Debug, PartialEq, Eq, Structural)]
pub struct LeaderId {
    pub term: u64,
    pub node_id: u64,
}

/// A vote for a leader, and whether a quorum has accepted it.
#[derive(Clone, Copy, Debug, PartialEq, Eq, Structural)]
pub struct Vote {
    pub leader_id: Option<LeaderId>,
    pub committed: bool,
}

/// Position of a log entry.
#[derive(Clone, Copy, Debug, PartialEq, Eq, Structural)]
pub struct LogId {
    pub term: u64,
    pub index: u64,
}

/// A cluster member and the address its peers reach it at.
#[derive(Clone, Debug, PartialEq, Eq)]
pub struct Node {
    pub node_id: u64,
    pub rpc_addr: String,
}

/// A client's write.
#[derive(Clone, Debug, PartialEq, Eq)]
pub struct SetRequest {
    pub key: String,
    pub value: String,
}

/// A client's read.
#[derive(Clone, Debug, PartialEq, Eq)]
pub struct GetRequest {
    pub key: String,
}

/// What the state machine answers to a client.
#[derive(Clone, Debug, PartialEq, Eq)]
pub struct Response {
    pub value: Option<String>,
}

/// One voter configuration: the keys are the node ids.
#[derive(Clone, Debug, PartialEq, Eq)]
pub struct NodeIdSet {
    pub node_ids: BTreeMap<u64, ()>,
}

/// The voter configurations (two while a change is in progress) and every
/// known node.
#[derive(Clone, Debug, PartialEq, Eq)]
pub struct Membership {
    pub configs: Vec<NodeIdSet>,
    pub nodes: BTreeMap<u64, Node>,
}

/// A replicated log entry.
#[derive(Clone, Debug, PartialEq, Eq)]
pub struct Entry {
    pub term: u64,
    pub index: u64,
    pub app_data: Option<SetRequest>,
    pub membership: Option<Membership>,
}

#[derive(Clone, Copy, Debug, PartialEq, Eq, Structural)]
pub struct VoteRequest {
    pub vote: Option<Vote>,
    pub last_log_id: Option<LogId>,
}

#[derive(Clone, Copy, Debug, PartialEq, Eq, Structural)]
pub struct VoteResponse {
    pub vote: Option<Vote>,
    pub vote_granted: bool,
    pub last_log_id: Option<LogId>,
}

#[derive(Clone, Debug, PartialEq, Eq)]
pub struct AppendEntriesRequest {
    pub vote: Option<Vote>,
    pub prev_log_id: Option<LogId>,
    pub entries: Vec<Entry>,
    pub leader_commit: Option<LogId>,
}

#[derive(Clone, Copy, Debug, PartialEq, Eq, Structural)]
pub struct AppendEntriesResponse {
    pub rejected_by: Option<Vote>,
    pub conflict: bool,
    pub last_log_id: Option<LogId>,
}

/// First message of a snapshot stream.
#[derive(Clone, Debug, PartialEq, Eq)]
pub struct SnapshotRequestMeta {
    pub vote: Option<Vote>,
    pub last_log_id: Option<LogId>,
    pub last_membership_log_id: Option<LogId>,
    pub last_membership: Option<Membership>,
    pub snapshot_id: String,
}

/// What one message of a snapshot stream carries.
#[derive(Clone, Debug, PartialEq, Eq)]
pub enum Payload {
    Meta(SnapshotRequestMeta),
    Chunk(Vec<u8>),
}

/// One message of a snapshot stream.
#[derive(Clone, Debug, PartialEq, Eq)]
pub struct SnapshotRequest {
    pub payload: Option<Payload>,
}

#[derive(Clone, Copy, Debug, PartialEq, Eq, Structural)]
pub struct SnapshotResponse {
    pub vote: Option<Vote>,
}

#[derive(Clone, Debug, PartialEq, Eq)]
pub struct ClientWriteResponse {
    pub log_id: Option<LogId>,
    pub data: Option<Response>,
    pub membership: Option<Membership>,
}

impl SnapshotRequest {
    /// The metadata, if this message carries it.
    pub fn into_meta(self) -> (meta: Option<SnapshotRequestMeta>)
        ensures
            meta == match self.payload {
                Some(Payload::Meta(m)) => Some(m),
                _ => None,
            },
    {
        match self.payload {
            Some(Payload::Meta(meta)) => Some(meta),
            _ => None,
        }
    }

    /// The bytes, if this message is a data chunk.
    pub fn into_data_chunk(self) -> (chunk: Option<Vec<u8>>)
        ensures
            chunk == match self.payload {
                Some(Payload::Chunk(c)) => Some(c),
                _ => None,
            },
    {
        match self.payload {
            Some(Payload::Chunk(chunk)) => Some(chunk),
            _ => None,
        }
    }
}

/// A leader id as text: `T`, the term, `-N`, the node id.
pub open spec fn leader_id_text(leader_id: LeaderId) -> Seq<char> {
    "T"@ + decimal(leader_id.term as nat) + "-N"@ + decimal(leader_id.node_id as nat)
}

/// A vote as text: the leader id and, after a colon, `Q` for a committed
/// vote and `-` for one that is not, all in angle brackets. A vote for nobody
/// shows the leader id of term 0 and node 0.
pub open spec fn vote_text(vote: Vote) -> Seq<char> {
    "<"@ + leader_id_text(
        match vote.leader_id {
            Some(l) => l,
            None => LeaderId { term: 0, node_id: 0 },
        },
    ) + ":"@ + if vote.committed {
        "Q"@
    } else {
        "-"@
    } + ">"@
}

impl LeaderId {
    /// This leader id as text.
    pub fn to_text(&self) -> (text: String)
        ensures
            text@ == leader_id_text(*self),
    {
        let mut text = String::from_str("T");
        text.append(decimal_string(self.term as u128).as_str());
        text.append("-N");
        text.append(decimal_string(self.node_id as u128).as_str());
        text
    }
}

impl Vote {
    /// This vote as text.
    pub fn to_text(&self) -> (text: String)
        ensures
            text@ == vote_text(*self),
    {
        let leader_id = match self.leader_id {
            Some(l) => l,
            None => LeaderId { term: 0, node_id: 0 },
        };
        let mut text = String::from_str("<");
        text.append(leader_id.to_text().as_str());
        text.append(":");
        if self.is_committed() {
            text.append("Q");
        } else {
            text.append("-");
        }
        text.append(">");
        text
    }

    /// A vote for `leader_id`.
    pub fn from_leader_id(leader_id: LeaderId, committed: bool) -> (vote: Vote)
        ensures
            vote == (Vote { leader_id: Some(leader_id), committed }),
    {
        Vote { leader_id: Some(leader_id), committed }
    }

    /// The leader voted for, if any.
    pub fn leader_id(&self) -> (id: Option<&LeaderId>)
        ensures
            id == match self.leader_id {
                Some(l) => Some(&l),
                None => None,
            },
    {
        self.leader_id.as_ref()
    }

    pub fn is_committed(&self) -> (committed: bool)
        ensures
            committed == self.committed,
    {
        self.committed
    }
}

} // verus!

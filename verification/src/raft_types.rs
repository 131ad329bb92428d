//! The consensus engine's own request and response types, as the peer
//! transport receives and returns them.

use crate::protobuf;
use std::collections::BTreeMap;
use std::collections::BTreeSet;
use vstd::prelude::*;

verus! {

pub type NodeId = u64;

pub type LeaderId = protobuf::LeaderId;

pub type Vote = protobuf::Vote;

pub type Entry = protobuf::Entry;

pub type Node = protobuf::Node;

/// Position of a log entry: the term of the leader that committed it and its
/// index in the log.
#[derive(Clone, Copy, Debug, PartialEq, Eq, Structural)]
pub struct LogId {
    pub leader_id: u64,
    pub index: u64,
}

impl LogId {
    pub fn new(leader_id: u64, index: u64) -> (log_id: LogId)
        ensures
            log_id == (LogId { leader_id, index }),
    {
        LogId { leader_id, index }
    }

    /// The term of the leader that committed the entry.
    pub fn committed_leader_id(&self) -> (term: &u64)
        ensures
            *term == self.leader_id,
    {
        &self.leader_id
    }

    pub fn index(&self) -> (index: u64)
        ensures
            index == self.index,
    {
        self.index
    }
}

#[derive(Clone, Copy, Debug, PartialEq, Eq, Structural)]
pub struct VoteRequest {
    pub vote: Vote,
    pub last_log_id: Option<LogId>,
}

impl VoteRequest {
    pub fn new(vote: Vote, last_log_id: Option<LogId>) -> (req: VoteRequest)
        ensures
            req == (VoteRequest { vote, last_log_id }),
    {
        VoteRequest { vote, last_log_id }
    }
}

#[derive(Clone, Copy, Debug, PartialEq, Eq, Structural)]
pub struct VoteResponse {
    pub vote: Vote,
    pub vote_granted: bool,
    pub last_log_id: Option<LogId>,
}

impl VoteResponse {
    pub fn new(vote: Vote, last_log_id: Option<LogId>, vote_granted: bool) -> (resp: VoteResponse)
        ensures
            resp == (VoteResponse { vote, vote_granted, last_log_id }),
    {
        VoteResponse { vote, vote_granted, last_log_id }
    }
}

#[derive(Clone, Debug, PartialEq, Eq)]
pub struct AppendEntriesRequest {
    pub vote: Vote,
    pub prev_log_id: Option<LogId>,
    pub entries: Vec<Entry>,
    pub leader_commit: Option<LogId>,
}

/// The four answers a follower can give to an append-entries call.
#[derive(Clone, Copy, Debug, PartialEq, Eq, Structural)]
pub enum AppendEntriesResponse {
    /// Every entry was stored.
    Success,
    /// The entries up to the given log id were stored.
    PartialSuccess(Option<LogId>),
    /// The entry before the first one sent does not match.
    Conflict,
    /// The follower has seen a higher vote.
    HigherVote(Vote),
}

#[derive(Clone, Copy, Debug, PartialEq, Eq, Structural)]
pub struct SnapshotResponse {
    pub vote: Vote,
}

/// The voter configurations and all nodes of the cluster.
#[derive(Clone, Debug, PartialEq, Eq)]
pub struct Membership {
    pub configs: Vec<BTreeSet<u64>>,
    pub nodes: BTreeMap<u64, Node>,
}

/// A membership and the log entry that made it effective.
#[derive(Clone, Debug, PartialEq, Eq)]
pub struct StoredMembership {
    pub log_id: Option<LogId>,
    pub membership: Membership,
}

/// What identifies a snapshot and the state it was taken at.
#[derive(Clone, Debug, PartialEq, Eq)]
pub struct SnapshotMeta {
    pub last_log_id: Option<LogId>,
    pub last_membership: StoredMembership,
    pub snapshot_id: String,
}

/// A snapshot of the state machine.
#[derive(Clone, Debug, PartialEq, Eq)]
pub struct Snapshot {
    pub meta: SnapshotMeta,
    pub snapshot: Vec<u8>,
}

#[derive(Clone, Debug, PartialEq, Eq)]
pub struct ClientWriteResponse {
    pub log_id: LogId,
    pub data: protobuf::Response,
    pub membership: Option<Membership>,
}

/// Why a call to a peer gave no response.
#[derive(Clone, Debug, PartialEq, Eq)]
pub enum RPCError {
    /// There is no channel to the peer.
    Unreachable(String),
    /// The call failed, or the peer's message lacks a required field.
    Network(String),
}

/// Why a snapshot was not installed on a peer.
#[derive(Clone, Debug, PartialEq, Eq)]
pub enum StreamingError {
    /// There is no channel to the peer.
    Unreachable(String),
    /// A step of the stream failed, or the peer's message lacks a required
    /// field.
    Network(String),
}

} // verus!

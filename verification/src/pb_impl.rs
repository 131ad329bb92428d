//! Conversion between the engine's types and the wire messages.
//!
//! Each direction is a spec function; the `From` impls compute exactly that.

use crate::protobuf;
use crate::raft_types::AppendEntriesRequest;
use crate::raft_types::AppendEntriesResponse;
use crate::raft_types::LogId;
use crate::raft_types::VoteRequest;
use vstd::prelude::*;
use vstd::std_specs::convert::FromSpecImpl;

verus! {

pub open spec fn log_id_to_wire(log_id: LogId) -> protobuf::LogId {
    protobuf::LogId { term: log_id.leader_id, index: log_id.index }
}

pub open spec fn log_id_from_wire(log_id: protobuf::LogId) -> LogId {
    LogId { leader_id: log_id.term, index: log_id.index }
}

pub open spec fn opt_log_id_to_wire(log_id: Option<LogId>) -> Option<protobuf::LogId> {
    match log_id {
        Some(l) => Some(log_id_to_wire(l)),
        None => None,
    }
}

pub open spec fn opt_log_id_from_wire(log_id: Option<protobuf::LogId>) -> Option<LogId> {
    match log_id {
        Some(l) => Some(log_id_from_wire(l)),
        None => None,
    }
}

impl From<LogId> for protobuf::LogId {
    fn from(log_id: LogId) -> (wire: protobuf::LogId) {
        protobuf::LogId { term: *log_id.committed_leader_id(), index: log_id.index() }
    }
}

impl FromSpecImpl<LogId> for protobuf::LogId {
    open spec fn obeys_from_spec() -> bool {
        true
    }

    open spec fn from_spec(log_id: LogId) -> protobuf::LogId {
        log_id_to_wire(log_id)
    }
}

impl From<protobuf::LogId> for LogId {
    fn from(proto_log_id: protobuf::LogId) -> (log_id: LogId) {
        LogId::new(proto_log_id.term, proto_log_id.index)
    }
}

impl FromSpecImpl<protobuf::LogId> for LogId {
    open spec fn obeys_from_spec() -> bool {
        true
    }

    open spec fn from_spec(proto_log_id: protobuf::LogId) -> LogId {
        log_id_from_wire(proto_log_id)
    }
}

/// An optional log id in wire form.
pub fn log_id_option_to_wire(log_id: Option<LogId>) -> (wire: Option<protobuf::LogId>)
    ensures
        wire == opt_log_id_to_wire(log_id),
{
    match log_id {
        Some(l) => Some(protobuf::LogId::from(l)),
        None => None,
    }
}

/// An optional log id read from its wire form.
pub fn log_id_option_from_wire(wire: Option<protobuf::LogId>) -> (log_id: Option<LogId>)
    ensures
        log_id == opt_log_id_from_wire(wire),
{
    match wire {
        Some(l) => Some(LogId::from(l)),
        None => None,
    }
}

/// The wire form of an append-entries response: a higher vote goes into
/// `rejected_by`, a conflict sets the flag, and a partial success carries the
/// log id it reached.
pub open spec fn append_response_to_wire(r: AppendEntriesResponse) -> protobuf::AppendEntriesResponse {
    match r {
        AppendEntriesResponse::Success => protobuf::AppendEntriesResponse {
            rejected_by: None,
            conflict: false,
            last_log_id: None,
        },
        AppendEntriesResponse::PartialSuccess(p) => protobuf::AppendEntriesResponse {
            rejected_by: None,
            conflict: false,
            last_log_id: opt_log_id_to_wire(p),
        },
        AppendEntriesResponse::Conflict => protobuf::AppendEntriesResponse {
            rejected_by: None,
            conflict: true,
            last_log_id: None,
        },
        AppendEntriesResponse::HigherVote(v) => protobuf::AppendEntriesResponse {
            rejected_by: Some(v),
            conflict: false,
            last_log_id: None,
        },
    }
}

/// The response that a wire message stands for. `rejected_by` decides first,
/// then `conflict`, then the presence of `last_log_id`.
pub open spec fn append_response_from_wire(r: protobuf::AppendEntriesResponse) -> AppendEntriesResponse {
    if let Some(higher) = r.rejected_by {
        AppendEntriesResponse::HigherVote(higher)
    } else if r.conflict {
        AppendEntriesResponse::Conflict
    } else if let Some(log_id) = r.last_log_id {
        AppendEntriesResponse::PartialSuccess(Some(log_id_from_wire(log_id)))
    } else {
        AppendEntriesResponse::Success
    }
}

impl From<protobuf::AppendEntriesResponse> for AppendEntriesResponse {
    fn from(r: protobuf::AppendEntriesResponse) -> (resp: AppendEntriesResponse) {
        if let Some(higher) = r.rejected_by {
            return AppendEntriesResponse::HigherVote(higher);
        }
        if r.conflict {
            return AppendEntriesResponse::Conflict;
        }
        if let Some(log_id) = r.last_log_id {
            AppendEntriesResponse::PartialSuccess(Some(LogId::from(log_id)))
        } else {
            AppendEntriesResponse::Success
        }
    }
}

impl FromSpecImpl<protobuf::AppendEntriesResponse> for AppendEntriesResponse {
    open spec fn obeys_from_spec() -> bool {
        true
    }

    open spec fn from_spec(r: protobuf::AppendEntriesResponse) -> AppendEntriesResponse {
        append_response_from_wire(r)
    }
}

impl From<AppendEntriesResponse> for protobuf::AppendEntriesResponse {
    fn from(r: AppendEntriesResponse) -> (wire: protobuf::AppendEntriesResponse) {
        match r {
            AppendEntriesResponse::Success => protobuf::AppendEntriesResponse {
                rejected_by: None,
                conflict: false,
                last_log_id: None,
            },
            AppendEntriesResponse::PartialSuccess(p) => protobuf::AppendEntriesResponse {
                rejected_by: None,
                conflict: false,
                last_log_id: log_id_option_to_wire(p),
            },
            AppendEntriesResponse::Conflict => protobuf::AppendEntriesResponse {
                rejected_by: None,
                conflict: true,
                last_log_id: None,
            },
            AppendEntriesResponse::HigherVote(v) => protobuf::AppendEntriesResponse {
                rejected_by: Some(v),
                conflict: false,
                last_log_id: None,
            },
        }
    }
}

impl FromSpecImpl<AppendEntriesResponse> for protobuf::AppendEntriesResponse {
    open spec fn obeys_from_spec() -> bool {
        true
    }

    open spec fn from_spec(r: AppendEntriesResponse) -> protobuf::AppendEntriesResponse {
        append_response_to_wire(r)
    }
}

/// A log id survives the trip over the wire.
pub proof fn lemma_log_id_round_trip(log_id: LogId)
    ensures
        log_id_from_wire(log_id_to_wire(log_id)) == log_id,
{
}

/// A wire log id survives being read and written again.
pub proof fn lemma_wire_log_id_round_trip(wire: protobuf::LogId)
    ensures
        log_id_to_wire(log_id_from_wire(wire)) == wire,
{
}

/// An append-entries response that is written to the wire and read back is
/// the response that was written. A partial success that names no log id is
/// the one response without a wire form of its own: it is written as a
/// success, so it is left out here.
pub proof fn lemma_append_response_round_trip(r: AppendEntriesResponse)
    requires
        r != AppendEntriesResponse::PartialSuccess(None),
    ensures
        append_response_from_wire(append_response_to_wire(r)) == r,
{
}

/// Reading keeps the four kinds of response apart: two responses with the
/// same wire form are the same response, unless one of them is a partial
/// success without a log id.
pub proof fn lemma_append_response_wire_distinct(a: AppendEntriesResponse, b: AppendEntriesResponse)
    requires
        a != AppendEntriesResponse::PartialSuccess(None),
        b != AppendEntriesResponse::PartialSuccess(None),
        append_response_to_wire(a) == append_response_to_wire(b),
    ensures
        a == b,
{
    lemma_append_response_round_trip(a);
    lemma_append_response_round_trip(b);
}

/// A partial success without a log id reads back as a plain success.
pub proof fn lemma_append_response_empty_partial()
    ensures
        append_response_from_wire(
            append_response_to_wire(AppendEntriesResponse::PartialSuccess(None)),
        ) == AppendEntriesResponse::Success,
{
}

pub open spec fn vote_request_to_wire(req: VoteRequest) -> protobuf::VoteRequest {
    protobuf::VoteRequest { vote: Some(req.vote), last_log_id: opt_log_id_to_wire(req.last_log_id) }
}

impl From<VoteRequest> for protobuf::VoteRequest {
    fn from(vote_req: VoteRequest) -> (wire: protobuf::VoteRequest) {
        protobuf::VoteRequest {
            vote: Some(vote_req.vote),
            last_log_id: log_id_option_to_wire(vote_req.last_log_id),
        }
    }
}

impl FromSpecImpl<VoteRequest> for protobuf::VoteRequest {
    open spec fn obeys_from_spec() -> bool {
        true
    }

    open spec fn from_spec(vote_req: VoteRequest) -> protobuf::VoteRequest {
        vote_request_to_wire(vote_req)
    }
}

impl VoteRequest {
    /// The request that a wire message stands for. The message must carry a
    /// vote.
    pub fn from_proto(proto_vote_req: protobuf::VoteRequest) -> (req: VoteRequest)
        requires
            proto_vote_req.vote is Some,
        ensures
            req.vote == proto_vote_req.vote->0,
            req.last_log_id == opt_log_id_from_wire(proto_vote_req.last_log_id),
    {
        let vote = proto_vote_req.vote.unwrap();
        let last_log_id = log_id_option_from_wire(proto_vote_req.last_log_id);
        VoteRequest::new(vote, last_log_id)
    }
}

impl From<AppendEntriesRequest> for protobuf::AppendEntriesRequest {
    fn from(value: AppendEntriesRequest) -> (wire: protobuf::AppendEntriesRequest) {
        protobuf::AppendEntriesRequest {
            vote: Some(value.vote),
            prev_log_id: log_id_option_to_wire(value.prev_log_id),
            entries: value.entries,
            leader_commit: log_id_option_to_wire(value.leader_commit),
        }
    }
}

impl FromSpecImpl<AppendEntriesRequest> for protobuf::AppendEntriesRequest {
    open spec fn obeys_from_spec() -> bool {
        true
    }

    open spec fn from_spec(value: AppendEntriesRequest) -> protobuf::AppendEntriesRequest {
        protobuf::AppendEntriesRequest {
            vote: Some(value.vote),
            prev_log_id: opt_log_id_to_wire(value.prev_log_id),
            entries: value.entries,
            leader_commit: opt_log_id_to_wire(value.leader_commit),
        }
    }
}

impl AppendEntriesRequest {
    /// The request that a wire message stands for. The message must carry a
    /// vote.
    pub fn from_proto(proto_req: protobuf::AppendEntriesRequest) -> (req: AppendEntriesRequest)
        requires
            proto_req.vote is Some,
        ensures
            req.vote == proto_req.vote->0,
            req.prev_log_id == opt_log_id_from_wire(proto_req.prev_log_id),
            req.entries == proto_req.entries,
            req.leader_commit == opt_log_id_from_wire(proto_req.leader_commit),
    {
        AppendEntriesRequest {
            vote: proto_req.vote.unwrap(),
            prev_log_id: log_id_option_from_wire(proto_req.prev_log_id),
            entries: proto_req.entries,
            leader_commit: log_id_option_from_wire(proto_req.leader_commit),
        }
    }
}

} // verus!

//! Calls to a peer: when a call can be made, what is sent, and what the
//! peer's answer means to the consensus engine.
//!
//! The channel to a peer is set up once, when the connection is made. If
//! that fails the connection is still handed out, without a channel, and
//! every call on it fails as unreachable. Nothing is retried here.

use crate::membership::membership_matches;
use crate::pb_impl::append_response_from_wire;
use crate::pb_impl::log_id_option_to_wire;
use crate::pb_impl::log_id_option_from_wire;
use crate::pb_impl::opt_log_id_from_wire;
use crate::pb_impl::opt_log_id_to_wire;
use crate::pb_impl::vote_request_to_wire;
use crate::protobuf;
use crate::raft_types::AppendEntriesRequest;
use crate::raft_types::AppendEntriesResponse;
use crate::raft_types::RPCError;
use crate::raft_types::Snapshot;
use crate::raft_types::SnapshotMeta;
use crate::raft_types::StreamingError;
use crate::raft_types::Vote;
use crate::raft_types::VoteRequest;
use crate::raft_types::VoteResponse;
use crate::snapshot::SnapshotStream;
use crate::snapshot::StreamState;
use crate::snapshot::SNAPSHOT_CHUNK_SIZE;
use vstd::prelude::*;
use vstd::slice::slice_to_vec;
use vstd::string::StringExecFns;
use vstd::std_specs::convert::FromSpecImpl;

verus! {

/// The cause given when a call is made without a channel.
pub const NO_CONNECTION: &'static str = "No connection available";

/// What a vote answer without a vote is reported as.
pub const MISSING_VOTE_IN_VOTE_RESPONSE: &'static str = "Missing `vote` in vote response";

/// The scheme that peers are reached with.
pub const ENDPOINT_SCHEME: &'static str = "https://";

/// The name that a peer's certificate has to be made out to.
pub const TLS_DOMAIN_NAME: &'static str = "localhost";

/// Seconds between TCP keep-alive probes.
pub const TCP_KEEPALIVE_SECS: u64 = 30;

/// Seconds between HTTP/2 keep-alive pings.
pub const HTTP2_KEEP_ALIVE_INTERVAL_SECS: u64 = 30;

/// Seconds to wait for the answer to a keep-alive ping.
pub const KEEP_ALIVE_TIMEOUT_SECS: u64 = 5;

/// Seconds to wait for a connection.
pub const CONNECT_TIMEOUT_SECS: u64 = 10;

/// What a node needs to call its peers: the certificate of the authority
/// that signed the peers' certificates, and its own certificate and key.
#[derive(Clone, Debug, PartialEq, Eq)]
pub struct Network {
    ca_cert: Vec<u8>,
    client_cert: Vec<u8>,
    client_key: Vec<u8>,
}

impl Network {
    pub closed spec fn spec_ca_cert(&self) -> Seq<u8> {
        self.ca_cert@
    }

    pub closed spec fn spec_client_cert(&self) -> Seq<u8> {
        self.client_cert@
    }

    pub closed spec fn spec_client_key(&self) -> Seq<u8> {
        self.client_key@
    }

    /// Keeps the three PEM texts for the connections to come.
    pub fn new(ca_cert: &[u8], client_cert: &[u8], client_key: &[u8]) -> (network: Network)
        ensures
            network.spec_ca_cert() == ca_cert@,
            network.spec_client_cert() == client_cert@,
            network.spec_client_key() == client_key@,
    {
        Network {
            ca_cert: slice_to_vec(ca_cert),
            client_cert: slice_to_vec(client_cert),
            client_key: slice_to_vec(client_key),
        }
    }

    pub fn ca_cert(&self) -> (pem: &[u8])
        ensures
            pem@ == self.spec_ca_cert(),
    {
        self.ca_cert.as_slice()
    }

    pub fn client_cert(&self) -> (pem: &[u8])
        ensures
            pem@ == self.spec_client_cert(),
    {
        self.client_cert.as_slice()
    }

    pub fn client_key(&self) -> (pem: &[u8])
        ensures
            pem@ == self.spec_client_key(),
    {
        self.client_key.as_slice()
    }

    /// Where the peer with the given address is reached.
    pub fn endpoint_uri(rpc_addr: &str) -> (uri: String)
        ensures
            uri@ == ENDPOINT_SCHEME@ + rpc_addr@,
    {
        let mut uri = String::from_str(ENDPOINT_SCHEME);
        uri.append(rpc_addr);
        uri
    }

    /// The connection to a peer, given whether a channel to it could be set
    /// up. A failure to connect is not an error here: it shows at the first
    /// call.
    pub fn new_client(&self, connected: bool) -> (connection: NetworkConnection)
        ensures
            connection.has_channel() == connected,
            !connection.has_client(),
    {
        NetworkConnection::new(connected)
    }
}

/// Whether a call has to make its client first.
#[derive(Clone, Copy, Debug, PartialEq, Eq, Structural)]
pub enum ClientAccess {
    /// The connection had no client yet: make one from the channel.
    Create,
    /// Use the client made before.
    Reuse,
}

/// The connection to one peer.
#[derive(Clone, Copy, Debug, PartialEq, Eq, Structural)]
pub struct NetworkConnection {
    channel: bool,
    client: bool,
}

/// The error of a call on a connection without a channel.
pub open spec fn is_unreachable(error: RPCError) -> bool {
    error matches RPCError::Unreachable(cause) && cause@ == NO_CONNECTION@
}

impl NetworkConnection {
    /// Whether a channel to the peer was set up.
    pub closed spec fn has_channel(&self) -> bool {
        self.channel
    }

    /// Whether the client has been made from the channel.
    pub closed spec fn has_client(&self) -> bool {
        self.client
    }

    pub fn new(channel: bool) -> (connection: NetworkConnection)
        ensures
            connection.has_channel() == channel,
            !connection.has_client(),
    {
        NetworkConnection { channel, client: false }
    }

    /// What getting the client does: without a channel it fails as
    /// unreachable and changes nothing; with one, the first call makes the
    /// client and the later ones use it.
    pub open spec fn got_client(self, after: Self, result: Result<ClientAccess, RPCError>) -> bool {
        &&& after.has_channel() == self.has_channel()
        &&& if !self.has_channel() {
            &&& result matches Err(e)
            &&& is_unreachable(e)
            &&& after.has_client() == self.has_client()
        } else {
            &&& after.has_client()
            &&& result == Ok::<ClientAccess, RPCError>(
                if self.has_client() {
                    ClientAccess::Reuse
                } else {
                    ClientAccess::Create
                },
            )
        }
    }

    /// The client for the next call.
    pub fn get_client(&mut self) -> (result: Result<ClientAccess, RPCError>)
        ensures
            old(self).got_client(*final(self), result),
    {
        if !self.channel {
            return Err(RPCError::Unreachable(String::from_str(NO_CONNECTION)));
        }
        if !self.client {
            self.client = true;
            Ok(ClientAccess::Create)
        } else {
            Ok(ClientAccess::Reuse)
        }
    }

    /// Prepares a vote call: the message to send, or why none can be sent.
    pub fn vote(&mut self, req: VoteRequest) -> (result: Result<
        (ClientAccess, protobuf::VoteRequest),
        RPCError,
    >)
        ensures
            final(self).has_channel() == old(self).has_channel(),
            match result {
                Ok((access, message)) => {
                    &&& old(self).got_client(*final(self), Ok(access))
                    &&& message == vote_request_to_wire(req)
                },
                Err(e) => old(self).got_client(*final(self), Err(e)),
            },
    {
        match self.get_client() {
            Ok(access) => Ok((access, protobuf::VoteRequest::from(req))),
            Err(e) => Err(e),
        }
    }

    /// Prepares an append-entries call: the message to send, or why none can
    /// be sent.
    pub fn append_entries(&mut self, req: AppendEntriesRequest) -> (result: Result<
        (ClientAccess, protobuf::AppendEntriesRequest),
        RPCError,
    >)
        ensures
            final(self).has_channel() == old(self).has_channel(),
            match result {
                Ok((access, message)) => {
                    &&& old(self).got_client(*final(self), Ok(access))
                    &&& message.vote == Some(req.vote)
                    &&& message.prev_log_id == opt_log_id_to_wire(req.prev_log_id)
                    &&& message.entries == req.entries
                    &&& message.leader_commit == opt_log_id_to_wire(req.leader_commit)
                },
                Err(e) => old(self).got_client(*final(self), Err(e)),
            },
    {
        match self.get_client() {
            Ok(access) => Ok((access, protobuf::AppendEntriesRequest::from(req))),
            Err(e) => Err(e),
        }
    }

    /// Prepares the installation of a snapshot: the stream that hands out
    /// its messages, or why none can be sent.
    pub fn full_snapshot(&mut self, vote: Vote, snapshot: Snapshot) -> (result: Result<
        (ClientAccess, SnapshotStream),
        StreamingError,
    >)
        ensures
            final(self).has_channel() == old(self).has_channel(),
            match result {
                Ok((access, stream)) => {
                    &&& old(self).got_client(*final(self), Ok(access))
                    &&& stream.wf()
                    &&& stream.spec_state() == StreamState::Open
                    &&& is_meta_message(stream.meta(), vote, snapshot.meta)
                    &&& stream.data() == snapshot.snapshot@
                    &&& stream.spec_chunk_size() == SNAPSHOT_CHUNK_SIZE
                },
                Err(e) => {
                    &&& !old(self).has_channel()
                    &&& final(self).has_client() == old(self).has_client()
                    &&& e matches StreamingError::Unreachable(cause)
                    &&& cause@ == NO_CONNECTION@
                },
            },
    {
        match self.get_client() {
            Ok(access) => {
                let meta = snapshot_meta_message(vote, snapshot.meta);
                Ok((access, SnapshotStream::new(meta, snapshot.snapshot)))
            },
            Err(e) => Err(StreamingError::from(e)),
        }
    }
}

impl From<RPCError> for StreamingError {
    fn from(e: RPCError) -> (error: StreamingError) {
        match e {
            RPCError::Unreachable(cause) => StreamingError::Unreachable(cause),
            RPCError::Network(cause) => StreamingError::Network(cause),
        }
    }
}

impl FromSpecImpl<RPCError> for StreamingError {
    open spec fn obeys_from_spec() -> bool {
        true
    }

    open spec fn from_spec(e: RPCError) -> StreamingError {
        match e {
            RPCError::Unreachable(cause) => StreamingError::Unreachable(cause),
            RPCError::Network(cause) => StreamingError::Network(cause),
        }
    }
}

/// Whether `message` is the metadata message for a snapshot with the given
/// metadata, sent under `vote`: it carries the vote, both log ids in wire
/// form, the membership in wire form and the snapshot's id.
pub open spec fn is_meta_message(
    message: protobuf::SnapshotRequestMeta,
    vote: Vote,
    meta: SnapshotMeta,
) -> bool {
    &&& message.vote == Some(vote)
    &&& message.last_log_id == opt_log_id_to_wire(meta.last_log_id)
    &&& message.last_membership_log_id == opt_log_id_to_wire(meta.last_membership.log_id)
    &&& message.last_membership matches Some(wire)
    &&& membership_matches(meta.last_membership.membership, wire)
    &&& message.snapshot_id == meta.snapshot_id
}

/// The first message of a snapshot stream.
pub fn snapshot_meta_message(vote: Vote, meta: SnapshotMeta) -> (message:
    protobuf::SnapshotRequestMeta)
    ensures
        is_meta_message(message, vote, meta),
{
    protobuf::SnapshotRequestMeta {
        vote: Some(vote),
        last_log_id: log_id_option_to_wire(meta.last_log_id),
        last_membership_log_id: log_id_option_to_wire(meta.last_membership.log_id),
        last_membership: Some(meta.last_membership.membership.into_proto()),
        snapshot_id: meta.snapshot_id,
    }
}

/// What came of a call: the peer's message, or the transport's account of
/// what went wrong.
pub enum Reply<M> {
    Message(M),
    Failed(String),
}

/// The engine's view of the outcome of a vote call. A failed call is a
/// network error with the transport's account as its cause; so is an answer
/// without a vote.
pub fn vote_response(reply: Reply<protobuf::VoteResponse>) -> (result: Result<
    VoteResponse,
    RPCError,
>)
    ensures
        match reply {
            Reply::Message(message) => match message.vote {
                Some(vote) => result == Ok::<VoteResponse, RPCError>(
                    VoteResponse {
                        vote,
                        vote_granted: message.vote_granted,
                        last_log_id: opt_log_id_from_wire(message.last_log_id),
                    },
                ),
                None => result matches Err(RPCError::Network(cause)) && cause@
                    == MISSING_VOTE_IN_VOTE_RESPONSE@,
            },
            Reply::Failed(cause) => result == Err::<VoteResponse, RPCError>(RPCError::Network(cause)),
        },
{
    match reply {
        Reply::Message(message) => match message.vote {
            Some(vote) => Ok(
                VoteResponse::new(
                    vote,
                    log_id_option_from_wire(message.last_log_id),
                    message.vote_granted,
                ),
            ),
            None => Err(RPCError::Network(String::from_str(MISSING_VOTE_IN_VOTE_RESPONSE))),
        },
        Reply::Failed(cause) => Err(RPCError::Network(cause)),
    }
}

/// The engine's view of the outcome of an append-entries call. A failed call
/// is a network error with the transport's account as its cause.
pub fn append_entries_response(reply: Reply<protobuf::AppendEntriesResponse>) -> (result: Result<
    AppendEntriesResponse,
    RPCError,
>)
    ensures
        result == match reply {
            Reply::Message(message) => Ok::<AppendEntriesResponse, RPCError>(
                append_response_from_wire(message),
            ),
            Reply::Failed(cause) => Err::<AppendEntriesResponse, RPCError>(RPCError::Network(cause)),
        },
{
    match reply {
        Reply::Message(message) => Ok(AppendEntriesResponse::from(message)),
        Reply::Failed(cause) => Err(RPCError::Network(cause)),
    }
}

/// The error for a step of a snapshot stream that the transport could not
/// carry out.
pub fn stream_failure(cause: String) -> (error: StreamingError)
    ensures
        error == StreamingError::Network(cause),
{
    StreamingError::Network(cause)
}

} // verus!

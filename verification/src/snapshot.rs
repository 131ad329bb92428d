//! Installing a snapshot on a peer: one metadata message, the payload in
//! chunks of a fixed size, the close of the sending side, then the peer's
//! answer.
//!
//! [`SnapshotStream`] decides what comes next; the caller performs it. The
//! order cannot be changed from outside: the metadata always goes first, the
//! chunks follow in the order of the payload, and the stream is closed after
//! the last of them.

use crate::protobuf;
use crate::protobuf::Payload;
use crate::raft_types::SnapshotResponse;
use crate::raft_types::StreamingError;
use vstd::arithmetic::div_mod::lemma_div_multiples_vanish;
use vstd::arithmetic::div_mod::lemma_fundamental_div_mod;
use vstd::arithmetic::div_mod::lemma_mod_multiples_basic;
use vstd::prelude::*;
use vstd::slice::slice_subrange;
use vstd::slice::slice_to_vec;
use vstd::string::StringExecFns;

verus! {

/// Size of a snapshot chunk on the wire: 1 MiB.
pub const SNAPSHOT_CHUNK_SIZE: usize = 1024 * 1024;

/// `ceil(len / chunk_size)`: the number of chunks that `len` bytes are cut
/// into.
pub open spec fn chunk_count(len: nat, chunk_size: nat) -> nat
    recommends
        chunk_size > 0,
{
    if len % chunk_size == 0 {
        len / chunk_size
    } else {
        len / chunk_size + 1
    }
}

/// Length of the chunk that starts at `offset`.
pub open spec fn chunk_len(len: nat, chunk_size: nat, offset: nat) -> nat
    recommends
        offset <= len,
{
    if len - offset < chunk_size {
        (len - offset) as nat
    } else {
        chunk_size
    }
}

/// The chunks of `data` from `offset` on, in the order they are sent.
pub open spec fn chunks_from(data: Seq<u8>, chunk_size: nat, offset: nat) -> Seq<Seq<u8>>
    recommends
        chunk_size > 0,
    decreases data.len() - offset,
{
    if chunk_size == 0 || offset >= data.len() {
        Seq::empty()
    } else {
        let n = chunk_len(data.len(), chunk_size, offset);
        seq![data.subrange(offset as int, (offset + n) as int)] + chunks_from(
            data,
            chunk_size,
            offset + n,
        )
    }
}

/// The chunks of a whole payload.
pub open spec fn chunks_of(data: Seq<u8>, chunk_size: nat) -> Seq<Seq<u8>> {
    chunks_from(data, chunk_size, 0)
}

/// What a message of the stream holds, for contracts.
pub enum MessageView {
    Meta(protobuf::SnapshotRequestMeta),
    Chunk(Seq<u8>),
    Empty,
}

pub open spec fn message_view(req: protobuf::SnapshotRequest) -> MessageView {
    match req.payload {
        Some(Payload::Meta(m)) => MessageView::Meta(m),
        Some(Payload::Chunk(c)) => MessageView::Chunk(c@),
        None => MessageView::Empty,
    }
}

/// Every message of one installation, in the order it is sent: the metadata,
/// then the chunks.
pub open spec fn stream_messages(
    meta: protobuf::SnapshotRequestMeta,
    data: Seq<u8>,
    chunk_size: nat,
) -> Seq<MessageView> {
    seq![MessageView::Meta(meta)] + chunks_of(data, chunk_size).map_values(
        |c: Seq<u8>| MessageView::Chunk(c),
    )
}

/// Where an installation stands.
#[derive(Clone, Copy, Debug, PartialEq, Eq, Structural)]
pub enum StreamState {
    /// Nothing has been sent.
    Open,
    /// The metadata is out and payload remains.
    MetaSent,
    /// The last chunk is out.
    ChunksSent,
    /// The sending side is closed; the peer's answer is awaited.
    Closed,
    /// The peer has answered with its vote.
    ResponseReceived,
}

/// What the caller has to do next.
#[derive(Debug, PartialEq, Eq)]
pub enum StreamStep {
    /// Send this message.
    Send(protobuf::SnapshotRequest),
    /// Close the sending side.
    Close,
    /// Wait for the peer's answer and hand it to `on_response`.
    AwaitResponse,
    /// The installation is complete.
    Done,
}

/// One snapshot installation on one peer.
pub struct SnapshotStream {
    state: StreamState,
    meta: Option<protobuf::SnapshotRequestMeta>,
    sent_meta: Ghost<protobuf::SnapshotRequestMeta>,
    data: Vec<u8>,
    offset: usize,
    chunk_size: usize,
}

impl SnapshotStream {
    pub closed spec fn spec_state(&self) -> StreamState {
        self.state
    }

    /// The metadata message of this installation.
    pub closed spec fn meta(&self) -> protobuf::SnapshotRequestMeta {
        self.sent_meta@
    }

    /// The payload.
    pub closed spec fn data(&self) -> Seq<u8> {
        self.data@
    }

    pub closed spec fn spec_chunk_size(&self) -> nat {
        self.chunk_size as nat
    }

    /// The number of messages handed out so far.
    pub closed spec fn messages_sent(&self) -> nat {
        if self.state is Open {
            0
        } else {
            1 + chunk_count(self.offset as nat, self.chunk_size as nat)
        }
    }

    /// Every message of this installation, in the order it is sent.
    pub open spec fn messages(&self) -> Seq<MessageView> {
        stream_messages(self.meta(), self.data(), self.spec_chunk_size())
    }

    /// What the fields hold beyond what the state shows.
    pub closed spec fn fields_wf(&self) -> bool {
        &&& self.offset <= self.data@.len()
        &&& (self.state is Open ==> self.offset == 0 && self.meta == Some(self.sent_meta@))
        &&& (self.state is MetaSent ==> self.offset < self.data@.len())
        &&& (!(self.state is Open) && !(self.state is MetaSent) ==> self.offset
            == self.data@.len())
        &&& (self.offset < self.data@.len() ==> self.offset % self.chunk_size == 0)
    }

    /// The state tells how far the stream has come: in `Open` nothing has been
    /// handed out, in `MetaSent` some message is still to come, and from
    /// `ChunksSent` on every message has been handed out.
    pub open spec fn wf(&self) -> bool {
        &&& self.spec_chunk_size() > 0
        &&& self.messages().len() == 1 + chunk_count(self.data().len(), self.spec_chunk_size())
        &&& (self.spec_state() is Open <==> self.messages_sent() == 0)
        &&& (self.spec_state() is MetaSent ==> self.messages_sent() < self.messages().len())
        &&& (!(self.spec_state() is Open) && !(self.spec_state() is MetaSent)
            ==> self.messages_sent() == self.messages().len())
        &&& self.fields_wf()
    }

    /// A stream that cuts `data` into chunks of [`SNAPSHOT_CHUNK_SIZE`] bytes.
    pub fn new(meta: protobuf::SnapshotRequestMeta, data: Vec<u8>) -> (stream: SnapshotStream)
        ensures
            stream.wf(),
            stream.spec_state() is Open,
            stream.meta() == meta,
            stream.data() == data@,
            stream.spec_chunk_size() == SNAPSHOT_CHUNK_SIZE,
    {
        SnapshotStream::with_chunk_size(meta, data, SNAPSHOT_CHUNK_SIZE)
    }

    /// A stream that cuts `data` into chunks of `chunk_size` bytes.
    pub fn with_chunk_size(
        meta: protobuf::SnapshotRequestMeta,
        data: Vec<u8>,
        chunk_size: usize,
    ) -> (stream: SnapshotStream)
        requires
            chunk_size > 0,
        ensures
            stream.wf(),
            stream.spec_state() is Open,
            stream.meta() == meta,
            stream.data() == data@,
            stream.spec_chunk_size() == chunk_size,
    {
        proof {
            lemma_stream_messages(meta, data@, chunk_size as nat);
        }
        SnapshotStream {
            state: StreamState::Open,
            sent_meta: Ghost(meta),
            meta: Some(meta),
            data,
            offset: 0,
            chunk_size,
        }
    }

    #[verifier::when_used_as_spec(spec_state)]
    pub fn state(&self) -> (state: StreamState)
        ensures
            state == self.spec_state(),
    {
        self.state
    }

    /// The next thing to do, and the state after it is done.
    ///
    /// While messages remain, the next one of [`Self::messages`] is handed out
    /// to be sent: first the metadata, then the chunks in the order of the
    /// payload. After the last one the stream is to be closed, and then the
    /// answer awaited.
    pub fn next_step(&mut self) -> (step: StreamStep)
        requires
            old(self).wf(),
        ensures
            final(self).wf(),
            final(self).meta() == old(self).meta(),
            final(self).data() == old(self).data(),
            final(self).spec_chunk_size() == old(self).spec_chunk_size(),
            match old(self).spec_state() {
                StreamState::Open | StreamState::MetaSent => {
                    &&& step matches StreamStep::Send(req)
                    &&& message_view(req) == old(self).messages()[old(self).messages_sent() as int]
                    &&& final(self).messages_sent() == old(self).messages_sent() + 1
                    &&& final(self).spec_state() == if final(self).messages_sent() == old(
                        self,
                    ).messages().len() {
                        StreamState::ChunksSent
                    } else {
                        StreamState::MetaSent
                    }
                },
                StreamState::ChunksSent => {
                    &&& step == StreamStep::Close
                    &&& final(self).spec_state() == StreamState::Closed
                    &&& final(self).messages_sent() == old(self).messages_sent()
                },
                StreamState::Closed => {
                    &&& step == StreamStep::AwaitResponse
                    &&& final(self).spec_state() == StreamState::Closed
                    &&& final(self).messages_sent() == old(self).messages_sent()
                },
                StreamState::ResponseReceived => {
                    &&& step == StreamStep::Done
                    &&& final(self).spec_state() == StreamState::ResponseReceived
                    &&& final(self).messages_sent() == old(self).messages_sent()
                },
            },
    {
        proof {
            lemma_stream_messages(self.meta(), self.data@, self.chunk_size as nat);
            lemma_chunks_from(self.data@, self.chunk_size as nat, self.offset as nat);
        }
        match self.state {
            StreamState::Open => {
                let meta = self.meta.take().unwrap();
                self.state = if self.data.len() == 0 {
                    StreamState::ChunksSent
                } else {
                    StreamState::MetaSent
                };
                StreamStep::Send(protobuf::SnapshotRequest { payload: Some(Payload::Meta(meta)) })
            },
            StreamState::MetaSent => {
                let remaining: usize = self.data.len() - self.offset;
                let n: usize = if remaining < self.chunk_size {
                    remaining
                } else {
                    self.chunk_size
                };
                let chunk = slice_to_vec(
                    slice_subrange(self.data.as_slice(), self.offset, self.offset + n),
                );
                proof {
                    let c = self.chunk_size as nat;
                    let o = self.offset as nat;
                    lemma_next_offset_aligned(self.data@.len(), c, o);
                    lemma_chunk_at(self.data@, c, 0, o);
                    lemma_chunks_from(self.data@, c, (o + n) as nat);
                    assert(chunk_count(o, c) == o / c);
                    assert(chunks_of(self.data@, c)[(o / c) as int] == chunk@);
                }
                self.offset = self.offset + n;
                if self.offset == self.data.len() {
                    self.state = StreamState::ChunksSent;
                }
                StreamStep::Send(protobuf::SnapshotRequest { payload: Some(Payload::Chunk(chunk)) })
            },
            StreamState::ChunksSent => {
                self.state = StreamState::Closed;
                StreamStep::Close
            },
            StreamState::Closed => StreamStep::AwaitResponse,
            StreamState::ResponseReceived => StreamStep::Done,
        }
    }

    /// Takes the peer's answer. An answer without a vote is a network error
    /// and leaves the stream waiting; one with a vote completes it.
    pub fn on_response(&mut self, message: protobuf::SnapshotResponse) -> (result: Result<
        SnapshotResponse,
        StreamingError,
    >)
        requires
            old(self).wf(),
            old(self).spec_state() is Closed,
        ensures
            final(self).wf(),
            final(self).meta() == old(self).meta(),
            final(self).data() == old(self).data(),
            final(self).messages_sent() == old(self).messages_sent(),
            final(self).spec_chunk_size() == old(self).spec_chunk_size(),
            match message.vote {
                Some(vote) => result == Ok::<SnapshotResponse, StreamingError>(
                    SnapshotResponse { vote },
                ),
                None => result matches Err(StreamingError::Network(text)) && text@
                    == MISSING_VOTE@,
            },
            final(self).spec_state() == if message.vote is Some {
                StreamState::ResponseReceived
            } else {
                StreamState::Closed
            },
    {
        let result = snapshot_response(message);
        if message.vote.is_some() {
            self.state = StreamState::ResponseReceived;
        }
        result
    }
}

/// What a snapshot answer without a vote is reported as.
pub const MISSING_VOTE: &'static str = "Missing `vote` in snapshot response";

/// Reads a peer's answer to a snapshot.
pub fn snapshot_response(message: protobuf::SnapshotResponse) -> (result: Result<
    SnapshotResponse,
    StreamingError,
>)
    ensures
        match message.vote {
            Some(vote) => result == Ok::<SnapshotResponse, StreamingError>(SnapshotResponse { vote }),
            None => result matches Err(StreamingError::Network(text)) && text@ == MISSING_VOTE@,
        },
{
    match message.vote {
        Some(vote) => Ok(SnapshotResponse { vote }),
        None => Err(StreamingError::Network(String::from_str(MISSING_VOTE))),
    }
}

/// After a chunk is handed out, either the payload is exhausted or the next
/// chunk starts at a multiple of the chunk size.
proof fn lemma_next_offset_aligned(len: nat, chunk_size: nat, offset: nat)
    requires
        chunk_size > 0,
        offset < len,
        offset % chunk_size == 0,
    ensures
        ({
            let next = offset + chunk_len(len, chunk_size, offset);
            &&& offset < next <= len
            &&& next < len ==> next % chunk_size == 0
            &&& chunk_count(next, chunk_size) == chunk_count(offset, chunk_size) + 1
        }),
{
    let next = offset + chunk_len(len, chunk_size, offset);
    let q = offset / chunk_size;
    assert(offset == q * chunk_size) by (nonlinear_arith)
        requires
            q == offset / chunk_size,
            offset % chunk_size == 0,
            chunk_size > 0,
    ;
    assert(chunk_count(offset, chunk_size) == q);
    if len - offset < chunk_size {
        assert(next == len);
        let r = (len - offset) as nat;
        assert(0 < r < chunk_size);
        assert(next == q * chunk_size + r);
        assert((q * chunk_size + r) / chunk_size == q && (q * chunk_size + r) % chunk_size == r)
            by (nonlinear_arith)
            requires
                0 < r < chunk_size,
                q >= 0,
        ;
    } else {
        assert(next == (q + 1) * chunk_size) by (nonlinear_arith)
            requires
                next == offset + chunk_size,
                offset == q * chunk_size,
        ;
        assert(((q + 1) * chunk_size) % chunk_size == 0 && ((q + 1) * chunk_size) / chunk_size
            == q + 1) by (nonlinear_arith)
            requires
                chunk_size > 0,
                q >= 0,
        ;
    }
}

/// From an offset that is a multiple of the chunk size, the chunks that
/// remain are as many as the whole payload has, less those before the offset,
/// and together they are the rest of the payload.
pub proof fn lemma_chunks_from(data: Seq<u8>, chunk_size: nat, offset: nat)
    requires
        chunk_size > 0,
        offset <= data.len(),
        offset < data.len() ==> offset % chunk_size == 0,
    ensures
        chunks_from(data, chunk_size, offset).len() + chunk_count(offset, chunk_size)
            == chunk_count(data.len(), chunk_size),
        chunks_from(data, chunk_size, offset).flatten() == data.subrange(
            offset as int,
            data.len() as int,
        ),
        forall|i: int|
            0 <= i < chunks_from(data, chunk_size, offset).len() ==> 0 < (#[trigger] chunks_from(
                data,
                chunk_size,
                offset,
            )[i]).len() <= chunk_size,
        forall|i: int|
            0 <= i < chunks_from(data, chunk_size, offset).len() - 1 ==> (#[trigger] chunks_from(
                data,
                chunk_size,
                offset,
            )[i]).len() == chunk_size,
    decreases data.len() - offset,
{
    let all = chunks_from(data, chunk_size, offset);
    if offset >= data.len() {
        assert(all.flatten() =~= data.subrange(offset as int, data.len() as int));
    } else {
        let n = chunk_len(data.len(), chunk_size, offset);
        let head = data.subrange(offset as int, (offset + n) as int);
        let rest = chunks_from(data, chunk_size, offset + n);
        lemma_next_offset_aligned(data.len(), chunk_size, offset);
        lemma_chunks_from(data, chunk_size, offset + n);
        assert(all == seq![head] + rest);
        assert(all.first() == head);
        assert(all.drop_first() =~= rest);
        assert(all.flatten() =~= data.subrange(offset as int, data.len() as int));
        assert forall|i: int| 0 <= i < all.len() implies 0 < (#[trigger] all[i]).len()
            <= chunk_size by {
            if i > 0 {
                assert(all[i] == rest[i - 1]);
            }
        }
        assert forall|i: int| 0 <= i < all.len() - 1 implies (#[trigger] all[i]).len()
            == chunk_size by {
            if i > 0 {
                assert(all[i] == rest[i - 1]);
            } else {
                assert(rest.len() > 0);
                assert(offset + n < data.len());
            }
        }
    }
}

/// A payload of `S` bytes cut at `C` bytes travels in exactly `1 + ceil(S / C)`
/// messages: the metadata and the chunks. The chunks, put together in the
/// order they are sent, are the payload; none is empty, and all but the last
/// are `C` bytes long.
pub proof fn lemma_stream_messages(
    meta: protobuf::SnapshotRequestMeta,
    data: Seq<u8>,
    chunk_size: nat,
)
    requires
        chunk_size > 0,
    ensures
        stream_messages(meta, data, chunk_size).len() == 1 + chunk_count(data.len(), chunk_size),
        stream_messages(meta, data, chunk_size)[0] == MessageView::Meta(meta),
        forall|i: int|
            1 <= i < stream_messages(meta, data, chunk_size).len() ==> #[trigger] stream_messages(
                meta,
                data,
                chunk_size,
            )[i] == MessageView::Chunk(chunks_of(data, chunk_size)[i - 1]),
        chunks_of(data, chunk_size).flatten() == data,
        forall|i: int|
            0 <= i < chunks_of(data, chunk_size).len() ==> 0 < (#[trigger] chunks_of(
                data,
                chunk_size,
            )[i]).len() <= chunk_size,
        forall|i: int|
            0 <= i < chunks_of(data, chunk_size).len() - 1 ==> (#[trigger] chunks_of(
                data,
                chunk_size,
            )[i]).len() == chunk_size,
{
    lemma_chunks_from(data, chunk_size, 0);
    assert(data.subrange(0, data.len() as int) =~= data);
    assert(chunk_count(0, chunk_size) == 0) by (nonlinear_arith)
        requires
            chunk_size > 0,
    ;
}

/// The chunk that starts at `offset` is the payload's chunk number
/// `offset / chunk_size`, counted from `start`.
pub proof fn lemma_chunk_at(data: Seq<u8>, chunk_size: nat, start: nat, offset: nat)
    requires
        chunk_size > 0,
        start % chunk_size == 0,
        offset % chunk_size == 0,
        start <= offset < data.len(),
    ensures
        ({
            let k = ((offset - start) / (chunk_size as int));
            &&& 0 <= k < chunks_from(data, chunk_size, start).len()
            &&& chunks_from(data, chunk_size, start)[k] == data.subrange(
                offset as int,
                (offset + chunk_len(data.len(), chunk_size, offset)) as int,
            )
        }),
    decreases offset - start,
{
    let all = chunks_from(data, chunk_size, start);
    let n = chunk_len(data.len(), chunk_size, start);
    let rest = chunks_from(data, chunk_size, start + n);
    assert(all == seq![data.subrange(start as int, (start + n) as int)] + rest);
    if start == offset {
        assert((offset - start) / (chunk_size as int) == 0) by (nonlinear_arith)
            requires
                offset == start,
                chunk_size > 0,
        ;
    } else {
        let c = chunk_size as int;
        let qs = start as int / c;
        let qo = offset as int / c;
        lemma_fundamental_div_mod(start as int, c);
        lemma_fundamental_div_mod(offset as int, c);
        assert(qs < qo) by (nonlinear_arith)
            requires
                start == c * qs,
                offset == c * qo,
                start < offset,
                c > 0,
        ;
        assert(offset - start == c * (qo - qs) && offset - (start + c) == c * (qo - qs - 1) && start
            + c == (qs + 1) * c && c * (qo - qs) >= c) by (nonlinear_arith)
            requires
                start == c * qs,
                offset == c * qo,
                qs < qo,
                c > 0,
        ;
        lemma_div_multiples_vanish(qo - qs, c);
        lemma_div_multiples_vanish(qo - qs - 1, c);
        lemma_mod_multiples_basic(qs + 1, c);
        assert(n == chunk_size);
        lemma_chunk_at(data, chunk_size, start + chunk_size, offset);
        let k = ((offset - start) / (chunk_size as int));
        assert(all[k] == rest[k - 1]);
    }
}

} // verus!

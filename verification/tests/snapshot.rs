use disco::protobuf;
use disco::raft_types::SnapshotResponse;
use disco::raft_types::StreamingError;
use disco::snapshot::snapshot_response;
use disco::snapshot::SnapshotStream;
use disco::snapshot::StreamState;
use disco::snapshot::StreamStep;
use disco::snapshot::MISSING_VOTE;
use disco::snapshot::SNAPSHOT_CHUNK_SIZE;

fn meta(id: &str) -> protobuf::SnapshotRequestMeta {
    protobuf::SnapshotRequestMeta {
        vote: Some(protobuf::Vote {
            leader_id: Some(protobuf::LeaderId { term: 1, node_id: 1 }),
            committed: true,
        }),
        last_log_id: Some(protobuf::LogId { term: 1, index: 10 }),
        last_membership_log_id: None,
        last_membership: None,
        snapshot_id: id.to_string(),
    }
}

fn payload(len: usize) -> Vec<u8> {
    (0..len).map(|i| (i % 251) as u8).collect()
}

/// Runs a stream until it asks for the stream to be closed.
fn drain(mut stream: SnapshotStream) -> (Vec<protobuf::SnapshotRequest>, SnapshotStream) {
    let mut sent = Vec::new();
    loop {
        match stream.next_step() {
            StreamStep::Send(message) => sent.push(message),
            StreamStep::Close => return (sent, stream),
            other => panic!("unexpected step {:?}", other),
        }
    }
}

fn check_chunking(len: usize, chunk_size: usize, expected_chunks: usize) {
    let data = payload(len);
    let stream = SnapshotStream::with_chunk_size(meta("m"), data.clone(), chunk_size);
    let (sent, _) = drain(stream);
    assert_eq!(sent.len(), 1 + expected_chunks);
    let mut messages = sent.into_iter();
    assert_eq!(messages.next().unwrap().into_meta(), Some(meta("m")));
    let mut together = Vec::new();
    let chunks: Vec<Vec<u8>> = messages.map(|m| m.into_data_chunk().unwrap()).collect();
    for (i, chunk) in chunks.iter().enumerate() {
        assert!(!chunk.is_empty());
        if i + 1 < chunks.len() {
            assert_eq!(chunk.len(), chunk_size);
        } else {
            assert!(chunk.len() <= chunk_size);
        }
        together.extend_from_slice(chunk);
    }
    assert_eq!(together, data);
}

#[test]
fn chunk_size_is_one_mebibyte() {
    assert_eq!(SNAPSHOT_CHUNK_SIZE, 1_048_576);
}

#[test]
fn empty_payload_sends_the_metadata_alone() {
    check_chunking(0, 4, 0);
}

#[test]
fn payload_below_one_chunk() {
    check_chunking(1, 4, 1);
    check_chunking(3, 4, 1);
}

#[test]
fn payload_of_exactly_one_chunk() {
    check_chunking(4, 4, 1);
}

#[test]
fn payload_just_above_one_chunk() {
    check_chunking(5, 4, 2);
}

#[test]
fn payload_of_whole_chunks() {
    check_chunking(12, 4, 3);
    check_chunking(7, 1, 7);
}

#[test]
fn payload_with_a_short_last_chunk() {
    check_chunking(10, 4, 3);
    check_chunking(1000, 7, 143);
}

#[test]
fn two_and_a_half_mebibytes_travel_in_four_messages() {
    let data = payload(2 * SNAPSHOT_CHUNK_SIZE + SNAPSHOT_CHUNK_SIZE / 2);
    let (sent, _) = drain(SnapshotStream::new(meta("big"), data.clone()));
    assert_eq!(sent.len(), 4);
    let sizes: Vec<usize> = sent
        .iter()
        .skip(1)
        .map(|m| m.clone().into_data_chunk().unwrap().len())
        .collect();
    assert_eq!(sizes, vec![1_048_576, 1_048_576, 524_288]);
    let together: Vec<u8> =
        sent.into_iter().skip(1).flat_map(|m| m.into_data_chunk().unwrap()).collect();
    assert_eq!(together, data);
}

#[test]
fn chunks_keep_the_order_of_the_payload() {
    let stream = SnapshotStream::with_chunk_size(meta("o"), vec![1, 2, 3, 4, 5], 2);
    let (sent, _) = drain(stream);
    let chunks: Vec<Vec<u8>> =
        sent.into_iter().skip(1).map(|m| m.into_data_chunk().unwrap()).collect();
    assert_eq!(chunks, vec![vec![1, 2], vec![3, 4], vec![5]]);
}

#[test]
fn states_follow_the_protocol() {
    let mut stream = SnapshotStream::with_chunk_size(meta("s"), vec![1, 2, 3], 2);
    assert_eq!(stream.state(), StreamState::Open);
    assert!(matches!(stream.next_step(), StreamStep::Send(_)));
    assert_eq!(stream.state(), StreamState::MetaSent);
    assert!(matches!(stream.next_step(), StreamStep::Send(_)));
    assert_eq!(stream.state(), StreamState::MetaSent);
    assert!(matches!(stream.next_step(), StreamStep::Send(_)));
    assert_eq!(stream.state(), StreamState::ChunksSent);
    assert_eq!(stream.next_step(), StreamStep::Close);
    assert_eq!(stream.state(), StreamState::Closed);
    assert_eq!(stream.next_step(), StreamStep::AwaitResponse);
    assert_eq!(stream.state(), StreamState::Closed);
    let vote = protobuf::Vote { leader_id: None, committed: false };
    assert_eq!(
        stream.on_response(protobuf::SnapshotResponse { vote: Some(vote) }),
        Ok(SnapshotResponse { vote })
    );
    assert_eq!(stream.state(), StreamState::ResponseReceived);
    assert_eq!(stream.next_step(), StreamStep::Done);
    assert_eq!(stream.state(), StreamState::ResponseReceived);
}

#[test]
fn empty_payload_goes_from_metadata_to_close() {
    let mut stream = SnapshotStream::new(meta("e"), vec![]);
    assert!(matches!(stream.next_step(), StreamStep::Send(_)));
    assert_eq!(stream.state(), StreamState::ChunksSent);
    assert_eq!(stream.next_step(), StreamStep::Close);
}

#[test]
fn answer_without_vote_is_a_network_error() {
    let (_, mut stream) = drain(SnapshotStream::with_chunk_size(meta("v"), vec![9], 1));
    assert_eq!(stream.state(), StreamState::Closed);
    assert_eq!(
        stream.on_response(protobuf::SnapshotResponse { vote: None }),
        Err(StreamingError::Network("Missing `vote` in snapshot response".to_string()))
    );
    assert_eq!(stream.state(), StreamState::Closed);
    assert_eq!(MISSING_VOTE, "Missing `vote` in snapshot response");
}

#[test]
fn snapshot_response_needs_a_vote() {
    let vote = protobuf::Vote {
        leader_id: Some(protobuf::LeaderId { term: 6, node_id: 2 }),
        committed: true,
    };
    assert_eq!(
        snapshot_response(protobuf::SnapshotResponse { vote: Some(vote) }),
        Ok(SnapshotResponse { vote })
    );
    assert_eq!(
        snapshot_response(protobuf::SnapshotResponse { vote: None }),
        Err(StreamingError::Network(MISSING_VOTE.to_string()))
    );
}

use chunker::ChunkError;
use chunker::ChunkSessionStatus;
use chunker::ChunkStatus;

#[test]
fn fresh_status_tracks_nothing() {
    let status = ChunkStatus::new();
    assert_eq!(status.number, None);
    assert_eq!(status.session, None);
    assert_eq!(status.retry, 0);
}

#[test]
fn to_send_records_the_chunk_and_restarts_the_retry_count() {
    let mut status = ChunkStatus::new();
    status.to_send(3);
    assert_eq!(status.number, Some(3));
    assert_eq!(status.session, Some(ChunkSessionStatus::Sended));
    assert_eq!(status.retry, 0);
}

#[test]
fn to_received_acknowledges_the_chunk_in_flight() {
    let mut status = ChunkStatus::new();
    status.to_send(7);
    status.increase_retry().unwrap();
    status.to_received(7);
    assert_eq!(status.number, Some(7));
    assert_eq!(status.session, Some(ChunkSessionStatus::Received));
    assert_eq!(status.retry, 0);
}

#[test]
fn resending_a_received_chunk_starts_over() {
    let mut status = ChunkStatus::new();
    status.to_send(4);
    status.to_received(4);
    status.to_send(5);
    assert_eq!(status.number, Some(5));
    assert_eq!(status.session, Some(ChunkSessionStatus::Sended));
    assert_eq!(status.retry, 0);
}

#[test]
fn increase_retry_counts_and_overflows_without_wrapping() {
    let mut status = ChunkStatus::new();
    status.to_send(0);
    for expected in 1..=u8::MAX {
        assert_eq!(status.increase_retry(), Ok(expected));
        assert_eq!(status.retry, expected);
    }
    // the counter sits at its maximum: one more retry is refused and
    // changes nothing
    assert_eq!(status.increase_retry(), Err(ChunkError::OverflowRetryCounter));
    assert_eq!(status.retry, u8::MAX);
    assert_eq!(status.number, Some(0));
    assert_eq!(status.session, Some(ChunkSessionStatus::Sended));
}

#[test]
fn retries_reset_on_every_transition() {
    let mut status = ChunkStatus::new();
    status.to_send(1);
    status.increase_retry().unwrap();
    status.increase_retry().unwrap();
    assert_eq!(status.retry, 2);
    status.to_send(1);
    assert_eq!(status.retry, 0);
    status.increase_retry().unwrap();
    status.to_received(1);
    assert_eq!(status.retry, 0);
}

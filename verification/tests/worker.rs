use bytes::Bytes;
use telestrator::feed::manager::{FeedControlMessage, FeedResultMessage};
use telestrator::remote::wrtc::{
    PeerWorker, WorkerAction, WorkerEvent, WorkerPhase, CLIENT_ID_LENGTH,
};
use tokio::sync::broadcast;
use tokio::sync::broadcast::error::TryRecvError;

fn sample(bytes: &[u8], now: u64) -> WorkerEvent {
    WorkerEvent::Feed {
        message: FeedResultMessage::EncodedBitstream(Bytes::copy_from_slice(bytes)),
        now,
    }
}

fn is_joined(action: &WorkerAction, id: &str) -> bool {
    matches!(action,
        WorkerAction::Announce(FeedControlMessage::ClientJoined { client_id }) if client_id == id)
}

fn is_left(action: &WorkerAction, id: &str) -> bool {
    matches!(action,
        WorkerAction::Depart(FeedControlMessage::ClientLeft { client_id }) if client_id == id)
}

#[test]
fn fresh_workers_get_distinct_ids() {
    let one = PeerWorker::new();
    let other = PeerWorker::new();
    assert_eq!(one.phase(), WorkerPhase::Connecting);
    for id in [one.client_id(), other.client_id()] {
        assert_eq!(id.chars().count(), CLIENT_ID_LENGTH);
        assert_eq!(id.len(), 36);
        assert!(id.chars().all(|c| c == '-' || c.is_ascii_hexdigit()));
    }
    assert_ne!(one.client_id(), other.client_id());
}

#[test]
fn worker_joins_when_ice_connects() {
    let mut worker = PeerWorker::with_client_id("peer-1".to_string());
    assert_eq!(worker.client_id(), "peer-1");
    assert_eq!(worker.phase(), WorkerPhase::Connecting);
    // Samples that arrive before the connection stands are not written.
    assert!(matches!(worker.handle(sample(&[1], 5)), WorkerAction::Idle));
    assert!(matches!(worker.handle(WorkerEvent::FeedLagged), WorkerAction::Idle));
    assert_eq!(worker.phase(), WorkerPhase::Connecting);
    assert!(is_joined(&worker.handle(WorkerEvent::IceConnected { now: 100 }), "peer-1"));
    assert_eq!(worker.phase(), WorkerPhase::Streaming { last_write: 100 });
    // A second notification changes nothing.
    assert!(matches!(worker.handle(WorkerEvent::IceConnected { now: 150 }), WorkerAction::Idle));
    assert_eq!(worker.phase(), WorkerPhase::Streaming { last_write: 100 });
}

#[test]
fn samples_are_written_with_the_time_since_the_last_write() {
    let mut worker = PeerWorker::with_client_id("peer-1".to_string());
    worker.handle(WorkerEvent::IceConnected { now: 100 });
    match worker.handle(sample(&[9, 8, 7], 130)) {
        WorkerAction::WriteSample { data, duration } => {
            assert_eq!(data.as_ref(), &[9, 8, 7][..]);
            assert_eq!(duration, 30);
        }
        _ => panic!("the sample was not written"),
    }
    match worker.handle(sample(&[6], 175)) {
        WorkerAction::WriteSample { data, duration } => {
            assert_eq!(data.as_ref(), &[6][..]);
            assert_eq!(duration, 45);
        }
        _ => panic!("the sample was not written"),
    }
    // A clock that went back gives no negative duration.
    match worker.handle(sample(&[5], 170)) {
        WorkerAction::WriteSample { duration, .. } => assert_eq!(duration, 0),
        _ => panic!("the sample was not written"),
    }
    assert_eq!(worker.phase(), WorkerPhase::Streaming { last_write: 170 });
}

#[test]
fn every_exit_sends_client_left_once() {
    let exits: [fn() -> WorkerEvent; 4] = [
        || WorkerEvent::FeedClosed,
        || WorkerEvent::WriteFailed,
        || WorkerEvent::PeerFailed,
        || WorkerEvent::Shutdown,
    ];
    for exit in exits {
        let mut worker = PeerWorker::with_client_id("peer-1".to_string());
        worker.handle(WorkerEvent::IceConnected { now: 1 });
        assert!(is_left(&worker.handle(exit()), "peer-1"));
        assert_eq!(worker.phase(), WorkerPhase::Finished);
        // Whatever comes after is ignored.
        for later in exits {
            assert!(matches!(worker.handle(later()), WorkerAction::Idle));
        }
        assert!(matches!(worker.handle(sample(&[1], 9)), WorkerAction::Idle));
        assert!(matches!(worker.handle(WorkerEvent::IceConnected { now: 9 }), WorkerAction::Idle));
        assert_eq!(worker.phase(), WorkerPhase::Finished);
    }
}

#[test]
fn worker_that_never_connected_still_takes_leave() {
    let mut worker = PeerWorker::with_client_id("peer-2".to_string());
    assert!(is_left(&worker.handle(WorkerEvent::PeerFailed), "peer-2"));
    assert_eq!(worker.phase(), WorkerPhase::Finished);
    assert!(matches!(worker.handle(WorkerEvent::IceConnected { now: 3 }), WorkerAction::Idle));
}

#[test]
fn lagged_feed_is_skipped_silently() {
    let mut worker = PeerWorker::with_client_id("peer-1".to_string());
    worker.handle(WorkerEvent::IceConnected { now: 0 });
    assert!(matches!(worker.handle(WorkerEvent::FeedLagged), WorkerAction::Idle));
    assert_eq!(worker.phase(), WorkerPhase::Streaming { last_write: 0 });
}

#[test]
fn lossy_broadcast() {
    // The feed as the program sets it up: a broadcast of capacity 1.
    let (feed, mut subscription) = broadcast::channel::<FeedResultMessage>(1);
    let mut worker = PeerWorker::with_client_id("sleepy".to_string());
    worker.handle(WorkerEvent::IceConnected { now: 0 });

    // The peer sleeps for three frame periods; the producer is never held up.
    for frame in 1..=3u8 {
        feed.send(FeedResultMessage::EncodedBitstream(Bytes::from(vec![frame]))).unwrap();
    }

    let mut written = Vec::new();
    loop {
        let event = match subscription.try_recv() {
            Ok(message) => WorkerEvent::Feed { message, now: 60 },
            Err(TryRecvError::Lagged(_)) => WorkerEvent::FeedLagged,
            Err(TryRecvError::Closed) => WorkerEvent::FeedClosed,
            Err(TryRecvError::Empty) => break,
        };
        match worker.handle(event) {
            WorkerAction::WriteSample { data, .. } => written.push(data.to_vec()),
            WorkerAction::Idle => {}
            _ => panic!("the worker left over a lagging feed"),
        }
    }
    // Only the frame that was produced last arrives; the two before it are dropped.
    assert_eq!(written, vec![vec![3u8]]);
    assert_eq!(worker.phase(), WorkerPhase::Streaming { last_write: 60 });

    drop(feed);
    let event = match subscription.try_recv() {
        Err(TryRecvError::Closed) => WorkerEvent::FeedClosed,
        _ => panic!("the feed is not closed"),
    };
    assert!(is_left(&worker.handle(event), "sleepy"));
}

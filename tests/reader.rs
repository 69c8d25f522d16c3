use sequencer_reader::{
    report_exit, FetchError, FilteredBlock, InsertError, Reader, ReaderError, RollupState,
    RunningReader, TransportError, TrySendOutcome,
};
use tokio::sync::mpsc;

fn block(height: u64) -> FilteredBlock {
    FilteredBlock::new(height, vec![height as u8])
}

fn reader(
    capacity: usize,
    next_expected: u64,
    stop_height: Option<u64>,
) -> (RunningReader, mpsc::Receiver<FilteredBlock>) {
    let (tx, rx) = mpsc::channel(capacity);
    (RunningReader::new(tx, vec![7; 32], next_expected, stop_height), rx)
}

/// Forwards cached blocks as the run loop would, until none is ready or a send is pending.
/// Returns the block that became the pending send, if any.
fn forward_ready(r: &mut RunningReader) -> Option<FilteredBlock> {
    while let Some(b) = r.pop_next_block() {
        if let Some(pending) = r.send_to_executor(b).unwrap() {
            return Some(pending);
        }
    }
    None
}

fn drain(rx: &mut mpsc::Receiver<FilteredBlock>) -> Vec<u64> {
    let mut heights = Vec::new();
    while let Ok(b) = rx.try_recv() {
        heights.push(b.height());
    }
    heights
}

/// Fetches every height the reader asks for, answering with the block of that height, and
/// forwards what is ready after each answer.
fn fetch_and_forward(r: &mut RunningReader) {
    while let Some(h) = r.next_fetch_height() {
        assert_eq!(r.handle_fetched_block(Ok(block(h))).unwrap(), None);
        assert!(forward_ready(r).is_none());
    }
}

#[test]
fn strict_ordering_over_out_of_order_fetches() {
    let (mut r, mut rx) = reader(16, 10, None);
    r.handle_latest_height(Ok(13));
    for h in [11, 13, 10, 12] {
        assert!(r.next_fetch_height().is_some());
        assert_eq!(r.handle_fetched_block(Ok(block(h))).unwrap(), None);
        assert!(forward_ready(&mut r).is_none());
    }
    assert_eq!(r.next_fetch_height(), None);
    assert_eq!(drain(&mut rx), vec![10, 11, 12, 13]);
}

#[test]
fn cursor_overtake_drops_in_flight_block() {
    let (mut r, mut rx) = reader(16, 10, None);
    r.handle_latest_height(Ok(10));
    assert_eq!(r.next_fetch_height(), Some(10));
    r.update_next_expected_height(15);
    assert_eq!(
        r.handle_fetched_block(Ok(block(10))).unwrap(),
        Some(InsertError::BelowCursor { height: 10, cursor: 15 })
    );
    assert!(forward_ready(&mut r).is_none());
    r.handle_latest_height(Ok(17));
    fetch_and_forward(&mut r);
    assert_eq!(drain(&mut rx), vec![15, 16, 17]);
}

#[test]
fn cursor_jump_drops_block_in_flight_below_it() {
    let (mut r, _rx) = reader(16, 100, None);
    r.handle_latest_height(Ok(200));
    r.update_next_expected_height(103);
    assert_eq!(r.next_fetch_height(), Some(103));
    r.update_next_expected_height(110);
    assert_eq!(
        r.handle_fetched_block(Ok(block(103))).unwrap(),
        Some(InsertError::BelowCursor { height: 103, cursor: 110 })
    );
    assert_eq!(r.next_fetch_height(), Some(110));
}

#[test]
fn backpressure_keeps_order_through_a_pending_send() {
    let (mut r, mut rx) = reader(1, 20, None);
    r.handle_latest_height(Ok(25));
    for _ in 20..=25 {
        let h = r.next_fetch_height().unwrap();
        assert_eq!(r.handle_fetched_block(Ok(block(h))).unwrap(), None);
    }
    let mut delivered = Vec::new();
    let mut pending = forward_ready(&mut r);
    assert_eq!(pending.as_ref().map(|b| b.height()), Some(21));
    assert_eq!(r.next_height_to_pop(), 22);
    while let Some(b) = pending.take() {
        // While the send is pending nothing more leaves the cache.
        assert!(r.has_pending_send());
        assert!(r.pop_next_block().is_none());
        assert_eq!(r.next_height_to_pop(), b.height() + 1);
        // The executor takes one block, which lets the pending send through.
        delivered.extend(drain(&mut rx));
        r.soft_blocks().try_send(b).unwrap();
        r.finish_pending_send(true).unwrap();
        pending = forward_ready(&mut r);
    }
    delivered.extend(drain(&mut rx));
    assert_eq!(delivered, vec![20, 21, 22, 23, 24, 25]);
}

#[test]
fn full_channel_still_accepts_fetched_blocks_into_cache() {
    let (mut r, mut rx) = reader(1, 1, None);
    r.handle_latest_height(Ok(3));
    for _ in 0..2 {
        let h = r.next_fetch_height().unwrap();
        r.handle_fetched_block(Ok(block(h))).unwrap();
    }
    let pending = forward_ready(&mut r).unwrap();
    assert_eq!(pending.height(), 2);
    let h = r.next_fetch_height().unwrap();
    assert_eq!(h, 3);
    assert_eq!(r.handle_fetched_block(Ok(block(3))).unwrap(), None);
    assert!(r.pop_next_block().is_none());
    assert_eq!(drain(&mut rx), vec![1]);
    r.soft_blocks().try_send(pending).unwrap();
    r.finish_pending_send(true).unwrap();
    assert_eq!(drain(&mut rx), vec![2]);
    assert!(forward_ready(&mut r).is_none());
    assert_eq!(drain(&mut rx), vec![3]);
}

#[test]
fn stop_height_is_delivered_last() {
    let (mut r, mut rx) = reader(16, 100, Some(102));
    assert!(!r.has_reached_stop_height());
    r.handle_latest_height(Ok(200));
    fetch_and_forward(&mut r);
    assert_eq!(drain(&mut rx), vec![100, 101, 102]);
    assert!(r.has_reached_stop_height());
    assert_eq!(r.next_fetch_height(), None);
}

#[test]
fn stop_waits_for_the_pending_send() {
    let (mut r, mut rx) = reader(1, 5, Some(6));
    r.handle_latest_height(Ok(6));
    for _ in 0..2 {
        let h = r.next_fetch_height().unwrap();
        r.handle_fetched_block(Ok(block(h))).unwrap();
    }
    assert_eq!(r.next_fetch_height(), None);
    let pending = forward_ready(&mut r).unwrap();
    assert_eq!(pending.height(), 6);
    assert_eq!(r.next_height_to_pop(), 7);
    assert!(!r.has_reached_stop_height());
    assert_eq!(drain(&mut rx), vec![5]);
    r.soft_blocks().try_send(pending).unwrap();
    r.finish_pending_send(true).unwrap();
    assert!(r.has_reached_stop_height());
    assert_eq!(drain(&mut rx), vec![6]);
}

#[test]
fn stop_height_below_next_expected_stops_at_once() {
    let (r, _rx) = reader(4, 50, Some(40));
    assert!(r.has_reached_stop_height());
}

#[test]
fn chain_id_mismatch_at_startup() {
    let (tx, _rx) = mpsc::channel(1);
    let state = RollupState {
        sequencer_chain_id: "astria-1".to_string(),
        rollup_id: vec![1; 32],
        next_expected_soft_height: 1,
        stop_height: None,
    };
    let reader = Reader::new(state, tx);
    let err = reader.initialize(&"astria-2".to_string()).unwrap_err();
    match &err {
        ReaderError::ChainIdMismatch { expected, actual } => {
            assert_eq!(expected, "astria-1");
            assert_eq!(actual, "astria-2");
        }
        other => panic!("unexpected error: {other:?}"),
    }
    let message = err.message();
    assert_eq!(
        message,
        "expected chain id `astria-1` does not match actual: `astria-2`"
    );
}

#[test]
fn matching_chain_id_enters_the_run_loop() {
    let (tx, _rx) = mpsc::channel(1);
    let state = RollupState {
        sequencer_chain_id: "astria-1".to_string(),
        rollup_id: vec![9; 32],
        next_expected_soft_height: 33,
        stop_height: Some(40),
    };
    let reader = Reader::new(state, tx);
    assert!(reader.initialize(&"astria-1".to_string()).is_ok());
    let running = reader.into_running();
    assert_eq!(running.next_height_to_pop(), 33);
    assert_eq!(running.rollup_id(), &vec![9; 32]);
    assert!(!running.has_pending_send());
    assert!(!running.has_reached_stop_height());
}

#[test]
fn transient_latest_height_failures() {
    let (mut r, mut rx) = reader(16, 48, None);
    for _ in 0..3 {
        r.handle_latest_height(Err(TransportError { message: "timeout".to_string() }));
        assert_eq!(r.next_fetch_height(), None);
    }
    r.handle_latest_height(Ok(50));
    fetch_and_forward(&mut r);
    assert_eq!(drain(&mut rx), vec![48, 49, 50]);
}

#[test]
fn first_latest_height_error_fetches_nothing() {
    let (mut r, _rx) = reader(16, 1, None);
    r.handle_latest_height(Err(TransportError { message: "unreachable".to_string() }));
    assert_eq!(r.next_fetch_height(), None);
    r.handle_latest_height(Ok(1));
    assert_eq!(r.next_fetch_height(), Some(1));
}

#[test]
fn latest_height_never_goes_down() {
    let (mut r, _rx) = reader(16, 10, None);
    r.handle_latest_height(Ok(11));
    r.handle_latest_height(Ok(5));
    assert_eq!(r.next_fetch_height(), Some(10));
    r.handle_fetched_block(Ok(block(10))).unwrap();
    assert_eq!(r.next_fetch_height(), Some(11));
    r.handle_fetched_block(Ok(block(11))).unwrap();
    assert_eq!(r.next_fetch_height(), None);
}

#[test]
fn one_fetch_at_a_time() {
    let (mut r, _rx) = reader(16, 10, None);
    r.handle_latest_height(Ok(20));
    assert_eq!(r.next_fetch_height(), Some(10));
    assert_eq!(r.next_fetch_height(), None);
}

#[test]
fn unrecoverable_fetch_is_fatal() {
    let (mut r, _rx) = reader(16, 10, None);
    r.handle_latest_height(Ok(20));
    r.next_fetch_height().unwrap();
    let err = r
        .handle_fetched_block(Err(FetchError { message: "retries exhausted".to_string() }))
        .unwrap_err();
    assert_eq!(
        err.message(),
        "the stream of new blocks returned a catastrophic error: retries exhausted"
    );
}

#[test]
fn closed_executor_channel_is_fatal() {
    let (mut r, rx) = reader(1, 10, None);
    drop(rx);
    r.handle_latest_height(Ok(10));
    r.next_fetch_height().unwrap();
    r.handle_fetched_block(Ok(block(10))).unwrap();
    let b = r.pop_next_block().unwrap();
    let err = r.send_to_executor(b).unwrap_err();
    assert!(matches!(err, ReaderError::ExecutorClosed));
    assert_eq!(
        err.message(),
        "could not send block to executor because its channel was closed"
    );
}

#[test]
fn pending_send_to_closed_channel_is_fatal() {
    let (mut r, _rx) = reader(1, 10, None);
    assert!(r.handle_try_send(TrySendOutcome::Full(block(10))).unwrap().is_some());
    assert!(r.has_pending_send());
    assert!(matches!(r.finish_pending_send(false), Err(ReaderError::ExecutorClosed)));
    assert!(!r.has_pending_send());
}

#[test]
fn try_send_outcomes() {
    let (mut r, _rx) = reader(1, 10, None);
    assert!(matches!(r.handle_try_send(TrySendOutcome::Sent), Ok(None)));
    assert!(!r.has_pending_send());
    assert!(matches!(
        r.handle_try_send(TrySendOutcome::Closed(block(10))),
        Err(ReaderError::ExecutorClosed)
    ));
    assert!(!r.has_pending_send());
    let back = r.handle_try_send(TrySendOutcome::Full(block(10))).unwrap().unwrap();
    assert_eq!(back.height(), 10);
    assert!(r.has_pending_send());
}

#[test]
fn shutdown_with_pending_send_loses_the_block_and_restart_resumes() {
    let (mut r, mut rx) = reader(1, 10, None);
    r.handle_latest_height(Ok(12));
    for _ in 10..=12 {
        let h = r.next_fetch_height().unwrap();
        r.handle_fetched_block(Ok(block(h))).unwrap();
    }
    let pending = forward_ready(&mut r).unwrap();
    assert_eq!(pending.height(), 11);
    assert!(r.has_pending_send());
    // Shutdown: the reader and its pending send are dropped; block 11 is lost.
    drop(pending);
    drop(r);
    assert_eq!(drain(&mut rx), vec![10]);
    // The rollup still expects 11: a new reader starts there with an empty cache.
    let (mut r, mut rx) = reader(16, 11, None);
    assert!(r.pop_next_block().is_none());
    r.handle_latest_height(Ok(12));
    fetch_and_forward(&mut r);
    assert_eq!(drain(&mut rx), vec![11, 12]);
}

#[test]
fn report_exit_passes_failures_on() {
    assert!(report_exit(Ok("stop height reached")).is_ok());
    assert!(matches!(
        report_exit(Err(ReaderError::ExecutorClosed)),
        Err(ReaderError::ExecutorClosed)
    ));
}

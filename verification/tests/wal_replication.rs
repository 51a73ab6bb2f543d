use write_proxy::replication::{BatchError, ReplicationPuller};
use write_proxy::wal::{Frame, PullError, WalLog};

fn log_with_frames(n: u64) -> WalLog {
    let mut log = WalLog::new();
    for i in 0..n {
        let offset = log.append((i % 7) as u32, vec![i as u8; 4], i % 5 == 4);
        assert_eq!(offset, i + 1);
    }
    log
}

#[test]
fn append_assigns_gapless_ascending_offsets() {
    let log = log_with_frames(10);
    assert_eq!(log.next_offset(), 11);
    for (i, f) in log.frames.iter().enumerate() {
        assert_eq!(f.offset, i as u64 + 1);
    }
}

#[test]
fn frames_after_returns_exactly_the_pending_suffix() {
    let log = log_with_frames(5);
    let v = log.frames_after(3).unwrap();
    assert_eq!(v.len(), 2);
    assert_eq!(v[0].offset, 4);
    assert_eq!(v[1].offset, 5);
    assert_eq!(v[0], log.frames[3]);
    assert!(log.frames_after(5).unwrap().is_empty());
    assert!(log.frames_after(9).unwrap().is_empty());
}

#[test]
fn pruned_frames_force_a_full_resync() {
    let mut log = log_with_frames(10);
    log.prune_through(4);
    assert_eq!(log.start, 5);
    assert_eq!(log.frames.len(), 6);
    // A replica still needing frame 3 cannot be served incrementally.
    assert_eq!(log.frames_after(2).unwrap_err(), PullError::NeedFullResync);
    // One that needs frame 5 or later still can.
    assert_eq!(log.frames_after(4).unwrap().len(), 6);
}

#[test]
fn scenario_cursor_100_log_150_applies_one_batch_to_150() {
    let log = log_with_frames(150);
    let mut puller = ReplicationPuller::new(100);
    let pulled = log.frames_after(puller.next_request()).unwrap();
    assert_eq!(pulled.len(), 50);
    let batch = puller.pending(&pulled).unwrap();
    assert_eq!(batch.len(), 50);
    for (i, f) in batch.iter().enumerate() {
        assert_eq!(f.offset, 101 + i as u64);
    }
    puller.commit(&batch);
    assert_eq!(puller.cursor, 150);
}

#[test]
fn rerun_after_crash_reapplies_nothing_committed_and_skips_nothing() {
    let log = log_with_frames(20);
    let mut puller = ReplicationPuller::new(10);
    let pulled = log.frames_after(puller.next_request()).unwrap();

    // A crash before commit: the rerun selects exactly the same batch.
    let first = puller.pending(&pulled).unwrap();
    let again = puller.pending(&pulled).unwrap();
    assert_eq!(first, again);
    assert_eq!(first.len(), 10);

    // After the commit, re-offering the same frames selects nothing.
    puller.commit(&first);
    assert_eq!(puller.cursor, 20);
    let after = puller.pending(&pulled).unwrap();
    assert!(after.is_empty());
    // And the next pull starts strictly after the committed offsets.
    assert!(log.frames_after(puller.next_request()).unwrap().is_empty());
}

#[test]
fn already_applied_prefix_is_skipped_not_reapplied() {
    let log = log_with_frames(8);
    let puller = ReplicationPuller::new(5);
    // Offer a batch that overlaps what was already applied.
    let pulled = log.frames_after(2).unwrap();
    let batch = puller.pending(&pulled).unwrap();
    assert_eq!(batch.len(), 3);
    assert_eq!(batch[0].offset, 6);
    assert_eq!(batch[2].offset, 8);
}

#[test]
fn disordered_or_gapped_batches_are_rejected_whole() {
    let puller = ReplicationPuller::new(0);
    let f = |offset: u64| Frame { offset, page_no: 1, page: vec![0], commit: false };

    // A gap inside the batch.
    assert_eq!(puller.pending(&vec![f(1), f(3)]).unwrap_err(), BatchError::OutOfOrder);
    // Descending order.
    assert_eq!(puller.pending(&vec![f(2), f(1)]).unwrap_err(), BatchError::OutOfOrder);
    // A batch that starts beyond the next needed offset.
    assert_eq!(puller.pending(&vec![f(2), f(3)]).unwrap_err(), BatchError::OutOfOrder);
    // The empty batch is fine and selects nothing.
    assert!(puller.pending(&Vec::new()).unwrap().is_empty());
}

#[test]
fn staleness_is_the_gap_to_the_primary() {
    let mut puller = ReplicationPuller::new(100);
    assert_eq!(puller.staleness(150), 50);
    assert_eq!(puller.staleness(100), 0);
    assert_eq!(puller.staleness(90), 0);
    let log = log_with_frames(150);
    let batch = puller.pending(&log.frames_after(100).unwrap()).unwrap();
    puller.commit(&batch);
    assert_eq!(puller.staleness(150), 0);
}

#[test]
fn committing_an_empty_batch_leaves_the_cursor() {
    let mut puller = ReplicationPuller::new(33);
    puller.commit(&Vec::new());
    assert_eq!(puller.cursor, 33);
}

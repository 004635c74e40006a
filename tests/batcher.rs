use mlop_ingest::batcher::{Batcher, BatcherPhase, BatcherStep};
use mlop_ingest::config::FlushConfig;

fn config(batch_size: usize, flush_interval_ms: u64) -> FlushConfig {
    FlushConfig { batch_size, flush_interval_ms }
}

#[test]
fn size_trigger_flushes_at_once() {
    let mut b: Batcher<u32> = Batcher::new(config(3, 60_000), false, 0);
    assert_eq!(b.on_row(1), BatcherStep::Receive);
    assert_eq!(b.on_row(2), BatcherStep::Receive);
    assert_eq!(b.on_row(3), BatcherStep::Write { attempt: 1, async_insert: true });
    assert_eq!(b.pending_batch(), &vec![1, 2, 3]);
    assert_eq!(b.buffered(), 0);
    assert_eq!(b.on_write_result(true, 5), BatcherStep::Receive);
    assert_eq!(b.phase(), BatcherPhase::Accumulating);
    assert!(b.pending_batch().is_empty());
}

#[test]
fn time_trigger_flushes_after_interval() {
    let mut b: Batcher<u32> = Batcher::new(config(1000, 100), false, 0);
    assert_eq!(b.on_row(1), BatcherStep::Receive);
    assert_eq!(b.on_row(2), BatcherStep::Receive);
    assert_eq!(b.on_tick(50), BatcherStep::Receive);
    assert_eq!(b.buffered(), 2);
    assert_eq!(b.on_tick(100), BatcherStep::Write { attempt: 1, async_insert: true });
    assert_eq!(b.pending_batch(), &vec![1, 2]);
}

#[test]
fn idle_tick_with_empty_buffer_does_nothing() {
    let mut b: Batcher<u32> = Batcher::new(config(10, 100), false, 0);
    assert_eq!(b.on_tick(1_000_000), BatcherStep::Receive);
    assert_eq!(b.phase(), BatcherPhase::Accumulating);
}

#[test]
fn final_flush_fatal() {
    let mut b: Batcher<u32> = Batcher::new(config(1000, 1000), false, 0);
    assert_eq!(b.on_row(7), BatcherStep::Receive);
    assert_eq!(b.on_closed(), BatcherStep::Write { attempt: 1, async_insert: false });
    let mut slept = 0u64;
    let mut attempts = 1u32;
    loop {
        match b.on_write_result(false, 0) {
            BatcherStep::Sleep { seconds } => slept += seconds,
            other => panic!("unexpected step {:?}", other),
        }
        match b.on_backoff_elapsed() {
            BatcherStep::Write { attempt, async_insert } => {
                assert!(!async_insert);
                attempts += 1;
                assert_eq!(attempt, attempts);
                assert_eq!(b.pending_batch(), &vec![7]);
            }
            BatcherStep::Abort => break,
            other => panic!("unexpected step {:?}", other),
        }
    }
    assert_eq!(attempts, 5);
    assert!(slept >= 2 + 4 + 8 + 16 + 32);
    assert_eq!(b.phase(), BatcherPhase::Aborted);
}

#[test]
fn closing_with_rows_makes_one_final_flush_of_all_of_them() {
    let mut b: Batcher<u32> = Batcher::new(config(10, 1000), false, 0);
    b.on_row(1);
    b.on_row(2);
    b.on_row(3);
    assert_eq!(b.on_closed(), BatcherStep::Write { attempt: 1, async_insert: false });
    assert_eq!(b.pending_batch(), &vec![1, 2, 3]);
    assert_eq!(b.buffered(), 0);
    assert_eq!(b.on_write_result(true, 10), BatcherStep::Exit);
    assert_eq!(b.phase(), BatcherPhase::Finished);
}

#[test]
fn closing_empty_batcher_exits() {
    let mut b: Batcher<u32> = Batcher::new(config(10, 1000), false, 0);
    assert_eq!(b.on_closed(), BatcherStep::Exit);
}

#[test]
fn normal_flush_drops_batch_after_three_attempts() {
    let mut b: Batcher<u32> = Batcher::new(config(2, 1000), false, 0);
    b.on_row(1);
    assert_eq!(b.on_row(2), BatcherStep::Write { attempt: 1, async_insert: true });
    assert_eq!(b.on_write_result(false, 1), BatcherStep::Sleep { seconds: 2 });
    assert_eq!(b.on_backoff_elapsed(), BatcherStep::Write { attempt: 2, async_insert: true });
    assert_eq!(b.on_write_result(false, 2), BatcherStep::Sleep { seconds: 4 });
    assert_eq!(b.on_backoff_elapsed(), BatcherStep::Write { attempt: 3, async_insert: true });
    assert_eq!(b.on_write_result(false, 9), BatcherStep::Receive);
    assert_eq!(b.consecutive_errors(), 1);
    assert!(b.pending_batch().is_empty());
    assert_eq!(b.phase(), BatcherPhase::Accumulating);
    // the failed flush counts against the interval
    b.on_row(3);
    assert_eq!(b.on_tick(1008), BatcherStep::Receive);
    assert_eq!(b.on_tick(1009), BatcherStep::Write { attempt: 1, async_insert: true });
    assert_eq!(b.on_write_result(true, 1010), BatcherStep::Receive);
    assert_eq!(b.consecutive_errors(), 0);
}

#[test]
fn large_batches_are_written_synchronously() {
    let mut b: Batcher<u32> = Batcher::new(config(1001, 1000), false, 0);
    for i in 0..1000 {
        assert_eq!(b.on_row(i), BatcherStep::Receive);
    }
    assert_eq!(b.on_row(1000), BatcherStep::Write { attempt: 1, async_insert: false });
    assert_eq!(b.pending_batch().len(), 1001);
}

#[test]
fn buffer_never_exceeds_twice_the_batch_size() {
    let mut b: Batcher<u32> = Batcher::new(config(4, 1000), false, 0);
    for i in 0..50u32 {
        if b.phase() != BatcherPhase::Accumulating {
            assert_eq!(b.on_write_result(true, i as u64), BatcherStep::Receive);
        }
        b.on_row(i);
        assert!(b.buffered() <= 2 * 4);
    }
}

#[test]
fn skip_upload_drops_batches() {
    let mut b: Batcher<u32> = Batcher::new(config(2, 1000), true, 0);
    assert_eq!(b.on_row(1), BatcherStep::Receive);
    assert_eq!(b.on_row(2), BatcherStep::Receive);
    assert_eq!(b.buffered(), 0);
    assert_eq!(b.on_row(3), BatcherStep::Receive);
    assert_eq!(b.on_closed(), BatcherStep::Exit);
}

#[test]
fn standard_policy() {
    let c = FlushConfig::standard();
    assert_eq!(c.batch_size, 500_000);
    assert_eq!(c.flush_interval_ms, 5_000);
}

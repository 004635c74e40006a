//! The per-row-type batcher as a state machine. The task that owns it feeds
//! it events (a row, a tick, the channel closing, the outcome of a write, the
//! end of a back-off) and performs the step it answers with.
use vstd::prelude::*;
use crate::config::FlushConfig;

verus! {

/// Attempts of a normal flush before its batch is dropped.
pub const FLUSH_ATTEMPTS: u32 = 3;

/// Attempts of the final flush before the batcher gives up.
pub const FINAL_FLUSH_ATTEMPTS: u32 = 5;

/// Batches larger than this are written synchronously.
pub const ASYNC_INSERT_LIMIT: usize = 1000;

/// What the owning task does next.
#[derive(Debug, Clone, Copy, PartialEq, Eq, Structural)]
pub enum BatcherStep {
    /// Wait for a row, a tick or the channel closing.
    Receive,
    /// Write the pending batch; `async_insert` asks for fire-and-forget
    /// semantics.
    Write { attempt: u32, async_insert: bool },
    /// Sleep this many seconds, then report that the back-off is over.
    Sleep { seconds: u64 },
    /// Stop: the channel is closed and nothing is left to write.
    Exit,
    /// Stop the process: the final flush failed on every attempt.
    Abort,
}

/// Where the batcher stands.
#[derive(Debug, Clone, Copy, PartialEq, Eq, Structural)]
pub enum BatcherPhase {
    Accumulating,
    Flushing { attempt: u32, is_final: bool },
    BackingOff { attempt: u32, is_final: bool },
    Finished,
    Aborted,
}

/// 2 to the power `n`.
pub open spec fn pow2(n: nat) -> nat
    decreases n,
{
    if n == 0 {
        1
    } else {
        2 * pow2((n - 1) as nat)
    }
}

/// Seconds slept after the failure of attempt `attempt`.
fn backoff_seconds(attempt: u32) -> (r: u64)
    requires
        1 <= attempt <= FINAL_FLUSH_ATTEMPTS,
    ensures
        r == pow2(attempt as nat),
{
    assert(pow2(1) == 2) by {
        assert(pow2(0) == 1);
    }
    let mut r: u64 = 2;
    let mut i: u32 = 1;
    while i < attempt
        invariant
            1 <= i <= attempt <= 5,
            r == pow2(i as nat),
            i == 1 ==> r == 2,
            i == 2 ==> r == 4,
            i == 3 ==> r == 8,
            i == 4 ==> r == 16,
        decreases attempt - i,
    {
        r = r * 2;
        i = i + 1;
    }
    r
}

/// Buffers rows of one type and decides when to write them.
pub struct Batcher<T> {
    buffer: Vec<T>,
    batch: Vec<T>,
    config: FlushConfig,
    skip_upload: bool,
    last_flush_ms: u64,
    consecutive_errors: u32,
    phase: BatcherPhase,
    received: Ghost<Seq<T>>,
    handed_off: Ghost<Seq<T>>,
}

impl<T> Batcher<T> {
    /// Rows received and not yet handed to a flush.
    pub closed spec fn buffer(&self) -> Seq<T> {
        self.buffer@
    }

    /// Rows of the flush under way.
    pub closed spec fn batch(&self) -> Seq<T> {
        self.batch@
    }

    /// Every row received, in order of arrival.
    pub closed spec fn received(&self) -> Seq<T> {
        self.received@
    }

    /// Rows whose batch was written or dropped, in order.
    pub closed spec fn handed_off(&self) -> Seq<T> {
        self.handed_off@
    }

    /// The flush policy.
    pub closed spec fn config(&self) -> FlushConfig {
        self.config
    }

    /// Whether batches are dropped instead of written.
    pub closed spec fn skips_upload(&self) -> bool {
        self.skip_upload
    }

    /// When the last flush ended, in milliseconds of the owner's clock.
    pub closed spec fn last_flush(&self) -> u64 {
        self.last_flush_ms
    }

    /// Dropped batches since the last successful flush.
    pub closed spec fn errors(&self) -> u32 {
        self.consecutive_errors
    }

    /// Where the batcher stands.
    pub closed spec fn phase_of(&self) -> BatcherPhase {
        self.phase
    }

    /// The buffer never holds more than a batch; a batch is held only while
    /// it is being written or waited on, and the buffer is then empty.
    pub closed spec fn wf(&self) -> bool {
        &&& self.received@ == self.handed_off@ + self.batch@ + self.buffer@
        &&& self.buffer@.len() <= self.config.batch_size
        &&& match self.phase {
            BatcherPhase::Accumulating => {
                &&& self.batch@.len() == 0
                &&& (self.buffer@.len() < self.config.batch_size || self.buffer@.len() == 0)
            },
            BatcherPhase::Flushing { attempt, is_final } => {
                &&& self.buffer@.len() == 0
                &&& self.batch@.len() > 0
                &&& !self.skip_upload
                &&& 1 <= attempt <= (if is_final {
                    FINAL_FLUSH_ATTEMPTS
                } else {
                    FLUSH_ATTEMPTS
                })
            },
            BatcherPhase::BackingOff { attempt, is_final } => {
                &&& self.buffer@.len() == 0
                &&& self.batch@.len() > 0
                &&& !self.skip_upload
                &&& 1 <= attempt
                &&& (if is_final {
                    attempt <= FINAL_FLUSH_ATTEMPTS
                } else {
                    attempt < FLUSH_ATTEMPTS
                })
            },
            BatcherPhase::Finished | BatcherPhase::Aborted => self.buffer@.len() == 0,
        }
    }

    /// A batcher with an empty buffer whose interval starts at `now_ms`.
    /// With `skip_upload`, batches are dropped instead of written.
    pub fn new(config: FlushConfig, skip_upload: bool, now_ms: u64) -> (r: Batcher<T>)
        ensures
            r.wf(),
            r.buffer() == Seq::<T>::empty(),
            r.batch() == Seq::<T>::empty(),
            r.config() == config,
            r.skips_upload() == skip_upload,
            r.last_flush() == now_ms,
            r.errors() == 0,
            r.phase_of() == BatcherPhase::Accumulating,
            r.received() == Seq::<T>::empty(),
            r.handed_off() == Seq::<T>::empty(),
    {
        Batcher {
            buffer: Vec::new(),
            batch: Vec::new(),
            config,
            skip_upload,
            last_flush_ms: now_ms,
            consecutive_errors: 0,
            phase: BatcherPhase::Accumulating,
            received: Ghost(Seq::empty()),
            handed_off: Ghost(Seq::empty()),
        }
    }

    /// Moves the whole buffer into the batch and answers with the first
    /// write; in skip mode the rows are dropped instead.
    fn begin_flush(&mut self, is_final: bool) -> (step: BatcherStep)
        requires
            old(self).phase_of() == BatcherPhase::Accumulating,
            old(self).batch().len() == 0,
            old(self).buffer().len() > 0,
            old(self).received() == old(self).handed_off() + old(self).buffer(),
        ensures
            final(self).received() == old(self).received(),
            old(self).skips_upload() ==> final(self).handed_off() == old(self).handed_off()
                + old(self).buffer(),
            !old(self).skips_upload() ==> final(self).handed_off() == old(self).handed_off(),
            final(self).buffer() == Seq::<T>::empty(),
            final(self).config() == old(self).config(),
            final(self).skips_upload() == old(self).skips_upload(),
            final(self).last_flush() == old(self).last_flush(),
            final(self).errors() == old(self).errors(),
            final(self).wf(),
            old(self).skips_upload() ==> final(self).batch() == Seq::<T>::empty() && (if is_final {
                step == BatcherStep::Exit && final(self).phase_of() == BatcherPhase::Finished
            } else {
                step == BatcherStep::Receive && final(self).phase_of()
                    == BatcherPhase::Accumulating
            }),
            !old(self).skips_upload() ==> {
                &&& final(self).batch() == old(self).buffer()
                &&& final(self).phase_of() == (BatcherPhase::Flushing { attempt: 1, is_final })
                &&& step == (BatcherStep::Write {
                    attempt: 1,
                    async_insert: !is_final && old(self).buffer().len() <= ASYNC_INSERT_LIMIT,
                })
            },
    {
        std::mem::swap(&mut self.buffer, &mut self.batch);
        if self.skip_upload {
            self.handed_off = Ghost(self.handed_off@ + self.batch@);
            self.batch.clear();
            if is_final {
                self.phase = BatcherPhase::Finished;
                BatcherStep::Exit
            } else {
                BatcherStep::Receive
            }
        } else {
            self.phase = BatcherPhase::Flushing { attempt: 1, is_final };
            BatcherStep::Write {
                attempt: 1,
                async_insert: !is_final && self.batch.len() <= ASYNC_INSERT_LIMIT,
            }
        }
    }

    /// A row arrived: it joins the tail of the buffer, and a buffer that has
    /// reached the batch size is flushed at once.
    pub fn on_row(&mut self, row: T) -> (step: BatcherStep)
        requires
            old(self).wf(),
            old(self).phase_of() == BatcherPhase::Accumulating,
        ensures
            final(self).wf(),
            final(self).config() == old(self).config(),
            final(self).skips_upload() == old(self).skips_upload(),
            final(self).last_flush() == old(self).last_flush(),
            final(self).errors() == old(self).errors(),
            final(self).received() == old(self).received().push(row),
            old(self).buffer().len() + 1 < old(self).config().batch_size ==> {
                &&& step == BatcherStep::Receive
                &&& final(self).buffer() == old(self).buffer().push(row)
                &&& final(self).phase_of() == BatcherPhase::Accumulating
            },
            old(self).buffer().len() + 1 >= old(self).config().batch_size ==> {
                &&& final(self).buffer() == Seq::<T>::empty()
                &&& old(self).skips_upload() ==> step == BatcherStep::Receive
                    && final(self).phase_of() == BatcherPhase::Accumulating
                &&& !old(self).skips_upload() ==> final(self).batch() == old(self).buffer().push(
                    row,
                ) && final(self).phase_of() == (BatcherPhase::Flushing {
                    attempt: 1,
                    is_final: false,
                }) && step == (BatcherStep::Write {
                    attempt: 1,
                    async_insert: old(self).buffer().len() + 1 <= ASYNC_INSERT_LIMIT,
                })
            },
    {
        self.received = Ghost(self.received@.push(row));
        self.buffer.push(row);
        assert(self.received@ =~= self.handed_off@ + self.batch@ + self.buffer@);
        if self.buffer.len() >= self.config.batch_size {
            self.begin_flush(false)
        } else {
            BatcherStep::Receive
        }
    }

    /// A periodic tick at `now_ms`: a non-empty buffer is flushed once the
    /// flush interval has passed since the last flush.
    pub fn on_tick(&mut self, now_ms: u64) -> (step: BatcherStep)
        requires
            old(self).wf(),
            old(self).phase_of() == BatcherPhase::Accumulating,
        ensures
            final(self).wf(),
            final(self).config() == old(self).config(),
            final(self).skips_upload() == old(self).skips_upload(),
            final(self).last_flush() == old(self).last_flush(),
            final(self).errors() == old(self).errors(),
            final(self).received() == old(self).received(),
            ({
                let due = now_ms >= old(self).last_flush() && now_ms - old(self).last_flush()
                    >= old(self).config().flush_interval_ms && old(self).buffer().len() > 0;
                &&& !due ==> step == BatcherStep::Receive && *final(self) == *old(self)
                &&& due ==> final(self).buffer() == Seq::<T>::empty()
                &&& due && old(self).skips_upload() ==> step == BatcherStep::Receive
                    && final(self).phase_of() == BatcherPhase::Accumulating
                &&& due && !old(self).skips_upload() ==> final(self).batch() == old(self).buffer()
                    && final(self).phase_of() == (BatcherPhase::Flushing {
                    attempt: 1,
                    is_final: false,
                }) && step == (BatcherStep::Write {
                    attempt: 1,
                    async_insert: old(self).buffer().len() <= ASYNC_INSERT_LIMIT,
                })
            }),
    {
        if now_ms >= self.last_flush_ms && now_ms - self.last_flush_ms
            >= self.config.flush_interval_ms && self.buffer.len() > 0 {
            self.begin_flush(false)
        } else {
            BatcherStep::Receive
        }
    }

    /// The input channel closed: whatever is buffered goes into one final
    /// flush; with nothing buffered the batcher is done.
    pub fn on_closed(&mut self) -> (step: BatcherStep)
        requires
            old(self).wf(),
            old(self).phase_of() == BatcherPhase::Accumulating,
        ensures
            final(self).wf(),
            final(self).buffer() == Seq::<T>::empty(),
            final(self).config() == old(self).config(),
            final(self).skips_upload() == old(self).skips_upload(),
            final(self).errors() == old(self).errors(),
            final(self).received() == old(self).received(),
            old(self).buffer().len() > 0 && !old(self).skips_upload() ==> {
                &&& final(self).batch() == old(self).buffer()
                &&& final(self).phase_of() == (BatcherPhase::Flushing {
                    attempt: 1,
                    is_final: true,
                })
                &&& step == (BatcherStep::Write { attempt: 1, async_insert: false })
            },
            old(self).buffer().len() == 0 || old(self).skips_upload() ==> {
                &&& step == BatcherStep::Exit
                &&& final(self).phase_of() == BatcherPhase::Finished
                &&& final(self).batch() == Seq::<T>::empty()
            },
    {
        if self.buffer.len() > 0 {
            self.begin_flush(true)
        } else {
            self.phase = BatcherPhase::Finished;
            BatcherStep::Exit
        }
    }

    /// The write of the pending batch finished at `now_ms`, successfully or
    /// not. A failed attempt is followed by a back-off of 2^attempt seconds,
    /// except the last attempt of a normal flush, whose batch is dropped; the
    /// final flush backs off after each of its attempts, the last included,
    /// before the batcher gives up.
    pub fn on_write_result(&mut self, succeeded: bool, now_ms: u64) -> (step: BatcherStep)
        requires
            old(self).wf(),
            old(self).phase_of() is Flushing,
        ensures
            final(self).wf(),
            final(self).config() == old(self).config(),
            final(self).skips_upload() == old(self).skips_upload(),
            final(self).buffer() == old(self).buffer(),
            final(self).received() == old(self).received(),
            final(self).batch() == Seq::<T>::empty() ==> final(self).handed_off() == old(
                self,
            ).handed_off() + old(self).batch(),
            final(self).batch() == old(self).batch() ==> final(self).handed_off() == old(
                self,
            ).handed_off(),
            ({
                let attempt = old(self).phase_of()->Flushing_attempt;
                let is_final = old(self).phase_of()->Flushing_is_final;
                &&& succeeded && !is_final ==> {
                    &&& step == BatcherStep::Receive
                    &&& final(self).phase_of() == BatcherPhase::Accumulating
                    &&& final(self).batch() == Seq::<T>::empty()
                    &&& final(self).errors() == 0
                    &&& final(self).last_flush() == now_ms
                }
                &&& succeeded && is_final ==> {
                    &&& step == BatcherStep::Exit
                    &&& final(self).phase_of() == BatcherPhase::Finished
                    &&& final(self).batch() == Seq::<T>::empty()
                }
                &&& !succeeded && !is_final && attempt >= FLUSH_ATTEMPTS ==> {
                    &&& step == BatcherStep::Receive
                    &&& final(self).phase_of() == BatcherPhase::Accumulating
                    &&& final(self).batch() == Seq::<T>::empty()
                    &&& final(self).errors() == (if old(self).errors() < u32::MAX {
                        old(self).errors() + 1
                    } else {
                        old(self).errors() as int
                    })
                    &&& final(self).last_flush() == now_ms
                }
                &&& !succeeded && (is_final || attempt < FLUSH_ATTEMPTS) ==> {
                    &&& step == (BatcherStep::Sleep { seconds: pow2(attempt as nat) as u64 })
                    &&& final(self).phase_of() == (BatcherPhase::BackingOff { attempt, is_final })
                    &&& final(self).batch() == old(self).batch()
                    &&& final(self).errors() == old(self).errors()
                    &&& final(self).last_flush() == old(self).last_flush()
                }
            }),
    {
        let (attempt, is_final) = match self.phase {
            BatcherPhase::Flushing { attempt, is_final } => (attempt, is_final),
            _ => (1, false),
        };
        if succeeded {
            self.handed_off = Ghost(self.handed_off@ + self.batch@);
            self.batch.clear();
            if is_final {
                self.phase = BatcherPhase::Finished;
                BatcherStep::Exit
            } else {
                self.consecutive_errors = 0;
                self.last_flush_ms = now_ms;
                self.phase = BatcherPhase::Accumulating;
                BatcherStep::Receive
            }
        } else if !is_final && attempt >= FLUSH_ATTEMPTS {
            self.handed_off = Ghost(self.handed_off@ + self.batch@);
            self.batch.clear();
            self.consecutive_errors = self.consecutive_errors.saturating_add(1);
            self.last_flush_ms = now_ms;
            self.phase = BatcherPhase::Accumulating;
            BatcherStep::Receive
        } else {
            self.phase = BatcherPhase::BackingOff { attempt, is_final };
            BatcherStep::Sleep { seconds: backoff_seconds(attempt) }
        }
    }

    /// The back-off after a failed attempt is over: the next attempt writes
    /// the same batch, unless the final flush has used all its attempts.
    pub fn on_backoff_elapsed(&mut self) -> (step: BatcherStep)
        requires
            old(self).wf(),
            old(self).phase_of() is BackingOff,
        ensures
            final(self).wf(),
            final(self).config() == old(self).config(),
            final(self).skips_upload() == old(self).skips_upload(),
            final(self).buffer() == old(self).buffer(),
            final(self).errors() == old(self).errors(),
            final(self).last_flush() == old(self).last_flush(),
            final(self).received() == old(self).received(),
            final(self).batch() == Seq::<T>::empty() ==> final(self).handed_off() == old(
                self,
            ).handed_off() + old(self).batch(),
            final(self).batch() == old(self).batch() ==> final(self).handed_off() == old(
                self,
            ).handed_off(),
            ({
                let attempt = old(self).phase_of()->BackingOff_attempt;
                let is_final = old(self).phase_of()->BackingOff_is_final;
                &&& is_final && attempt >= FINAL_FLUSH_ATTEMPTS ==> {
                    &&& step == BatcherStep::Abort
                    &&& final(self).phase_of() == BatcherPhase::Aborted
                    &&& final(self).batch() == Seq::<T>::empty()
                }
                &&& !(is_final && attempt >= FINAL_FLUSH_ATTEMPTS) ==> {
                    &&& step == (BatcherStep::Write {
                        attempt: (attempt + 1) as u32,
                        async_insert: !is_final && old(self).batch().len() <= ASYNC_INSERT_LIMIT,
                    })
                    &&& final(self).phase_of() == (BatcherPhase::Flushing {
                        attempt: (attempt + 1) as u32,
                        is_final,
                    })
                    &&& final(self).batch() == old(self).batch()
                }
            }),
    {
        let (attempt, is_final) = match self.phase {
            BatcherPhase::BackingOff { attempt, is_final } => (attempt, is_final),
            _ => (1, false),
        };
        if is_final && attempt >= FINAL_FLUSH_ATTEMPTS {
            self.handed_off = Ghost(self.handed_off@ + self.batch@);
            self.batch.clear();
            self.phase = BatcherPhase::Aborted;
            BatcherStep::Abort
        } else {
            self.phase = BatcherPhase::Flushing { attempt: attempt + 1, is_final };
            BatcherStep::Write {
                attempt: attempt + 1,
                async_insert: !is_final && self.batch.len() <= ASYNC_INSERT_LIMIT,
            }
        }
    }

    /// The rows of the flush under way, for the writer.
    pub fn pending_batch(&self) -> (r: &Vec<T>)
        ensures
            r@ == self.batch(),
    {
        &self.batch
    }

    /// How many rows are buffered.
    pub fn buffered(&self) -> (r: usize)
        ensures
            r == self.buffer().len(),
    {
        self.buffer.len()
    }

    /// Where the batcher stands.
    pub fn phase(&self) -> (r: BatcherPhase)
        ensures
            r == self.phase_of(),
    {
        self.phase
    }

    /// Flushes that failed in a row, counting only dropped batches.
    pub fn consecutive_errors(&self) -> (r: u32)
        ensures
            r == self.errors(),
    {
        self.consecutive_errors
    }
}

/// No row is lost, repeated or reordered: the rows received are, in order,
/// those already written or dropped, then the batch under way, then the
/// buffer.
pub proof fn lemma_rows_conserved<T>(b: Batcher<T>)
    requires
        b.wf(),
    ensures
        b.received() == b.handed_off() + b.batch() + b.buffer(),
{
}

/// The buffer of a well-formed batcher never exceeds twice its batch size.
pub proof fn lemma_memory_bound<T>(b: Batcher<T>)
    requires
        b.wf(),
    ensures
        b.buffer().len() <= 2 * b.config().batch_size,
{
}

} // verus!

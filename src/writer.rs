//! The batched writer's decisions: records are gathered into a batch that
//! is written as one transaction when it reaches the size threshold or when
//! a receive times out; at shutdown the channel is drained and the rest
//! written, so that no record received is left unwritten.
use vstd::prelude::*;
use crate::event::EventRecord;

verus! {

/// The number of records that triggers a write.
pub const BATCH_SIZE: usize = 200;

/// The records handed out for writing, if any.
pub open spec fn written(r: Option<Vec<EventRecord>>) -> Seq<EventRecord> {
    match r {
        Some(v) => v@,
        None => Seq::empty(),
    }
}

/// The batch after receiving `e`, and the batch handed out for writing.
pub open spec fn batch_step(batch: Seq<EventRecord>, e: EventRecord) -> (
    Seq<EventRecord>,
    Seq<EventRecord>,
) {
    if batch.len() + 1 >= BATCH_SIZE {
        (Seq::empty(), batch.push(e))
    } else {
        (batch.push(e), Seq::empty())
    }
}

/// The batch after receiving `records` in turn, and everything handed out
/// for writing meanwhile, in order.
pub open spec fn run_batcher(batch: Seq<EventRecord>, records: Seq<EventRecord>) -> (
    Seq<EventRecord>,
    Seq<EventRecord>,
)
    decreases records.len(),
{
    if records.len() == 0 {
        (batch, Seq::empty())
    } else {
        let prev = run_batcher(batch, records.drop_last());
        let step = batch_step(prev.0, records.last());
        (step.0, prev.1 + step.1)
    }
}

/// Nothing received is lost or reordered: whatever sequence of records
/// arrives, the batches handed out for writing followed by the batch still
/// held are exactly the records held before and those received, in order.
/// The batcher does not look at whether recording is paused, so records
/// queued before a pause are written like any other; draining the batch at
/// a timeout or when the senders are gone hands out the rest.
pub proof fn lemma_batcher_keeps_every_record(batch: Seq<EventRecord>, records: Seq<EventRecord>)
    ensures
        run_batcher(batch, records).1 + run_batcher(batch, records).0 == batch + records,
    decreases records.len(),
{
    if records.len() > 0 {
        let pr = records.drop_last();
        lemma_batcher_keeps_every_record(batch, pr);
        let prev = run_batcher(batch, pr);
        let step = batch_step(prev.0, records.last());
        assert(batch + records =~= (batch + pr).push(records.last()));
        if prev.0.len() + 1 >= BATCH_SIZE {
            assert(prev.1 + step.1 + step.0 =~= (prev.1 + prev.0).push(records.last()));
        } else {
            assert(prev.1 + step.1 + step.0 =~= (prev.1 + prev.0).push(records.last()));
        }
    } else {
        assert(Seq::<EventRecord>::empty() + batch =~= batch + records);
    }
}

/// The records received and not yet handed out for writing.
pub struct WriteBatcher {
    pub batch: Vec<EventRecord>,
}

/// What the writer does after a receive timed out.
pub struct TimeoutStep {
    /// A batch to write.
    pub write: Option<Vec<EventRecord>>,
    /// Shutdown was requested and nothing is left to receive: stop.
    pub stop: bool,
}

impl WriteBatcher {
    pub fn new() -> (r: WriteBatcher)
        ensures
            r.batch@.len() == 0,
    {
        WriteBatcher { batch: Vec::new() }
    }

    fn take_batch(&mut self) -> (r: Vec<EventRecord>)
        ensures
            r@ == old(self).batch@,
            final(self).batch@.len() == 0,
    {
        let mut out: Vec<EventRecord> = Vec::new();
        std::mem::swap(&mut out, &mut self.batch);
        out
    }

    /// A record arrived. Once the batch holds `BATCH_SIZE` records it is
    /// handed out for writing, in arrival order.
    pub fn on_event(&mut self, e: EventRecord) -> (r: Option<Vec<EventRecord>>)
        ensures
            (final(self).batch@, written(r)) == batch_step(old(self).batch@, e),
            old(self).batch@.len() + 1 >= BATCH_SIZE ==> r is Some && r->Some_0@ == old(
                self,
            ).batch@.push(e) && final(self).batch@.len() == 0,
            old(self).batch@.len() + 1 < BATCH_SIZE ==> r is None && final(self).batch@ == old(
                self,
            ).batch@.push(e),
    {
        self.batch.push(e);
        if self.batch.len() >= BATCH_SIZE {
            Some(self.take_batch())
        } else {
            None
        }
    }

    /// A receive timed out: a non-empty batch is handed out, which bounds
    /// recording latency. The writer stops once shutdown was requested and
    /// the channel is empty, with nothing left in the batch.
    pub fn on_timeout(&mut self, shutdown: bool, channel_empty: bool) -> (r: TimeoutStep)
        ensures
            old(self).batch@.len() > 0 ==> r.write is Some && r.write->Some_0@ == old(
                self,
            ).batch@,
            old(self).batch@.len() == 0 ==> r.write is None,
            final(self).batch@.len() == 0,
            r.stop == (shutdown && channel_empty),
    {
        let write = if self.batch.len() > 0 {
            Some(self.take_batch())
        } else {
            None
        };
        TimeoutStep { write, stop: shutdown && channel_empty }
    }

    /// Every sender is gone: whatever remains is handed out and the writer
    /// stops.
    pub fn on_disconnect(&mut self) -> (r: Option<Vec<EventRecord>>)
        ensures
            old(self).batch@.len() > 0 ==> r is Some && r->Some_0@ == old(self).batch@,
            old(self).batch@.len() == 0 ==> r is None,
            final(self).batch@.len() == 0,
    {
        if self.batch.len() > 0 {
            Some(self.take_batch())
        } else {
            None
        }
    }
}

} // verus!

//! Scroll aggregation: wheel ticks closer together than the aggregation gap
//! are summed into one scroll event; a quiet buffer is flushed by a
//! background check so that emission latency stays bounded.
use vstd::prelude::*;

verus! {

/// Ticks at most this far apart (in milliseconds) belong to one aggregate.
pub const SCROLL_GAP_MS: i64 = 200;

/// One wheel notification: monotonic time, pointer position, wheel delta.
#[derive(Clone, Copy, Debug, PartialEq, Eq, Structural)]
pub struct ScrollTick {
    pub ts_ms: i64,
    pub x: i32,
    pub y: i32,
    pub delta: i32,
}

/// An aggregate of consecutive ticks: time and position of the latest one,
/// the sum of their deltas and their number.
#[derive(Clone, Copy, Debug, PartialEq, Eq, Structural)]
pub struct ScrollBuffer {
    pub last_ts_ms: i64,
    pub x: i32,
    pub y: i32,
    pub total_delta: i64,
    pub ticks: u32,
}

impl ScrollBuffer {
    /// The sum stays within what `ticks` deltas can add up to.
    pub open spec fn wf(self) -> bool {
        &&& self.ticks >= 1
        &&& -(self.ticks as int) * 0x8000_0000 <= self.total_delta
        &&& self.total_delta <= (self.ticks as int) * 0x7fff_ffff
    }

    pub open spec fn start(t: ScrollTick) -> ScrollBuffer {
        ScrollBuffer { last_ts_ms: t.ts_ms, x: t.x, y: t.y, total_delta: t.delta as i64, ticks: 1 }
    }

    /// The aggregate with one more tick added.
    pub open spec fn extend(self, t: ScrollTick) -> ScrollBuffer {
        ScrollBuffer {
            last_ts_ms: t.ts_ms,
            x: t.x,
            y: t.y,
            total_delta: (self.total_delta + t.delta) as i64,
            ticks: (self.ticks + 1) as u32,
        }
    }

    /// Whether `t` continues this aggregate: it comes within the gap and the
    /// tick count has room to grow.
    pub open spec fn continues(self, t: ScrollTick) -> bool {
        t.ts_ms - self.last_ts_ms <= SCROLL_GAP_MS && self.ticks < u32::MAX
    }
}

/// The scroll aggregator's state: the aggregate being built, if any.
#[derive(Clone, Copy, Debug)]
pub struct ScrollAggregator {
    pub current: Option<ScrollBuffer>,
}

pub open spec fn buffer_wf(b: Option<ScrollBuffer>) -> bool {
    match b {
        Some(b) => b.wf(),
        None => true,
    }
}

/// One tick: the new aggregate and the aggregate emitted, if any.
pub open spec fn tick_step(cur: Option<ScrollBuffer>, t: ScrollTick) -> (
    Option<ScrollBuffer>,
    Option<ScrollBuffer>,
) {
    match cur {
        Some(b) => if b.continues(t) {
            (Some(b.extend(t)), None)
        } else {
            (Some(ScrollBuffer::start(t)), Some(b))
        },
        None => (Some(ScrollBuffer::start(t)), None),
    }
}

impl ScrollAggregator {
    pub open spec fn wf(self) -> bool {
        buffer_wf(self.current)
    }

    pub fn new() -> (r: ScrollAggregator)
        ensures
            r.current is None,
            r.wf(),
    {
        ScrollAggregator { current: None }
    }

    /// Adds one wheel tick. A tick within the gap of the previous one joins
    /// its aggregate; otherwise the previous aggregate is returned for
    /// emission and a new one starts with this tick.
    pub fn on_tick(&mut self, t: ScrollTick) -> (r: Option<ScrollBuffer>)
        requires
            old(self).wf(),
        ensures
            final(self).wf(),
            (final(self).current, r) == tick_step(old(self).current, t),
    {
        match self.current {
            Some(b) => {
                if (t.ts_ms as i128) - (b.last_ts_ms as i128) <= SCROLL_GAP_MS as i128 && b.ticks
                    < u32::MAX {
                    self.current = Some(
                        ScrollBuffer {
                            last_ts_ms: t.ts_ms,
                            x: t.x,
                            y: t.y,
                            total_delta: b.total_delta + t.delta as i64,
                            ticks: b.ticks + 1,
                        },
                    );
                    None
                } else {
                    self.current = Some(
                        ScrollBuffer {
                            last_ts_ms: t.ts_ms,
                            x: t.x,
                            y: t.y,
                            total_delta: t.delta as i64,
                            ticks: 1,
                        },
                    );
                    Some(b)
                }
            },
            None => {
                self.current = Some(
                    ScrollBuffer {
                        last_ts_ms: t.ts_ms,
                        x: t.x,
                        y: t.y,
                        total_delta: t.delta as i64,
                        ticks: 1,
                    },
                );
                None
            },
        }
    }

    /// Hands out the aggregate being built, if any, whatever its age; nothing
    /// stays pending.
    pub fn take(&mut self) -> (r: Option<ScrollBuffer>)
        requires
            old(self).wf(),
        ensures
            final(self).wf(),
            r == old(self).current,
            final(self).current is None,
    {
        let r = self.current;
        self.current = None;
        r
    }

    /// Emits the aggregate once no tick has arrived for more than the gap.
    pub fn flush_if_quiet(&mut self, now_ms: i64) -> (r: Option<ScrollBuffer>)
        requires
            old(self).wf(),
        ensures
            final(self).wf(),
            match old(self).current {
                Some(b) => if now_ms - b.last_ts_ms > SCROLL_GAP_MS {
                    r == Some(b) && final(self).current is None
                } else {
                    r is None && final(self).current == old(self).current
                },
                None => r is None && final(self).current is None,
            },
    {
        match self.current {
            Some(b) => {
                if (now_ms as i128) - (b.last_ts_ms as i128) > SCROLL_GAP_MS as i128 {
                    self.current = None;
                    Some(b)
                } else {
                    None
                }
            },
            None => None,
        }
    }
}

/// The aggregator after `ticks` in turn, and the aggregates emitted.
pub open spec fn run_ticks(cur: Option<ScrollBuffer>, ticks: Seq<ScrollTick>) -> (
    Option<ScrollBuffer>,
    Seq<ScrollBuffer>,
)
    decreases ticks.len(),
{
    if ticks.len() == 0 {
        (cur, Seq::empty())
    } else {
        let prev = run_ticks(cur, ticks.drop_last());
        let step = tick_step(prev.0, ticks.last());
        (
            step.0,
            match step.1 {
                Some(b) => prev.1.push(b),
                None => prev.1,
            },
        )
    }
}

pub open spec fn delta_sum(ticks: Seq<ScrollTick>) -> int
    decreases ticks.len(),
{
    if ticks.len() == 0 {
        0
    } else {
        delta_sum(ticks.drop_last()) + ticks.last().delta
    }
}

/// Ticks in which each follows the previous within the aggregation gap.
pub open spec fn is_burst(ticks: Seq<ScrollTick>) -> bool {
    forall|i: int|
        1 <= i < ticks.len() ==> #[trigger] ticks[i].ts_ms - ticks[i - 1].ts_ms <= SCROLL_GAP_MS
}

proof fn lemma_burst(ticks: Seq<ScrollTick>)
    requires
        1 <= ticks.len() < u32::MAX,
        is_burst(ticks),
    ensures
        run_ticks(None, ticks).1.len() == 0,
        run_ticks(None, ticks).0 == Some(
            ScrollBuffer {
                last_ts_ms: ticks.last().ts_ms,
                x: ticks.last().x,
                y: ticks.last().y,
                total_delta: delta_sum(ticks) as i64,
                ticks: ticks.len() as u32,
            },
        ),
        -(ticks.len() as int) * 0x8000_0000 <= delta_sum(ticks) <= (ticks.len() as int)
            * 0x7fff_ffff,
    decreases ticks.len(),
{
    if ticks.len() > 1 {
        let p = ticks.drop_last();
        assert(is_burst(p)) by {
            assert forall|i: int| 1 <= i < p.len() implies #[trigger] p[i].ts_ms - p[i - 1].ts_ms
                <= SCROLL_GAP_MS by {
                assert(p[i] == ticks[i] && p[i - 1] == ticks[i - 1]);
            }
        }
        lemma_burst(p);
        let n = ticks.len() - 1;
        assert(ticks[n].ts_ms - ticks[n - 1].ts_ms <= SCROLL_GAP_MS);
        assert(p.last() == ticks[n - 1]);
        let agg = run_ticks(None, p).0->Some_0;
        assert(agg.total_delta == delta_sum(p));
        assert(agg.continues(ticks.last()));
        assert(tick_step(Some(agg), ticks.last()).1 is None);
    } else {
        assert(ticks.drop_last().len() == 0);
        assert(delta_sum(ticks.drop_last()) == 0);
        assert(run_ticks(None, ticks.drop_last()) == (
            None::<ScrollBuffer>,
            Seq::<ScrollBuffer>::empty(),
        ));
    }
}

/// Wheel ticks that arrive faster than the aggregation gap, starting from
/// an empty aggregator, emit nothing while they arrive and build one
/// aggregate that sums their deltas and counts them; a tick arriving after
/// the gap emits exactly that aggregate and starts a new one.
pub proof fn lemma_scroll_burst_is_one_event(ticks: Seq<ScrollTick>, next: ScrollTick)
    requires
        1 <= ticks.len() < u32::MAX,
        is_burst(ticks),
        next.ts_ms - ticks.last().ts_ms > SCROLL_GAP_MS,
    ensures
        run_ticks(None, ticks).1.len() == 0,
        run_ticks(None, ticks.push(next)).1 == seq![
            ScrollBuffer {
                last_ts_ms: ticks.last().ts_ms,
                x: ticks.last().x,
                y: ticks.last().y,
                total_delta: delta_sum(ticks) as i64,
                ticks: ticks.len() as u32,
            },
        ],
        run_ticks(None, ticks.push(next)).0 == Some(ScrollBuffer::start(next)),
        delta_sum(ticks) == run_ticks(None, ticks).0->Some_0.total_delta,
{
    lemma_burst(ticks);
    assert(ticks.push(next).drop_last() =~= ticks);
    assert(run_ticks(None, ticks.push(next)).1 =~= seq![
        ScrollBuffer {
            last_ts_ms: ticks.last().ts_ms,
            x: ticks.last().x,
            y: ticks.last().y,
            total_delta: delta_sum(ticks) as i64,
            ticks: ticks.len() as u32,
        },
    ]);
}

} // verus!

//! Foreground window tracking: a new foreground window is reported at once,
//! while a change of the same window's rectangle waits until the window has
//! stopped moving for the debounce interval.
use vstd::prelude::*;
use crate::event::{RectInfo, WindowInfo, same_rect};

verus! {

/// A rectangle change waiting for its debounce interval.
#[derive(Clone, Debug)]
pub struct PendingRect {
    pub hwnd: isize,
    pub info: WindowInfo,
    pub last_change_ms: i64,
}

/// The last foreground window seen, its rectangle, and a pending change.
#[derive(Clone, Debug)]
pub struct WindowTracker {
    pub last_hwnd: isize,
    pub last_rect: Option<RectInfo>,
    pub pending: Option<PendingRect>,
}

/// What one observation of the foreground window calls for.
#[derive(Clone, Copy, Debug, PartialEq, Eq, Structural)]
pub struct WindowUpdate {
    /// A different window came to the foreground.
    pub is_new: bool,
    /// The rectangle changed and no debounce applies: report it now.
    pub rect_now: bool,
}

/// The tracker after observing `hwnd` with `info` at `now`, and what the
/// observation calls for.
pub open spec fn observe_step(
    t: WindowTracker,
    hwnd: isize,
    info: WindowInfo,
    now: i64,
    debounce_ms: int,
) -> (WindowTracker, WindowUpdate) {
    let is_new = hwnd != t.last_hwnd;
    let rect_changed = is_new || info.rect != t.last_rect;
    let pending = if is_new {
        None
    } else if rect_changed && debounce_ms > 0 {
        Some(PendingRect { hwnd, info, last_change_ms: now })
    } else {
        t.pending
    };
    (
        WindowTracker { last_hwnd: hwnd, last_rect: info.rect, pending },
        WindowUpdate { is_new, rect_now: rect_changed && !is_new && debounce_ms <= 0 },
    )
}

/// The tracker after a debounce check at `now`, and the window whose
/// rectangle change is due, if any.
pub open spec fn check_step(t: WindowTracker, now: i64, debounce_ms: int) -> (
    WindowTracker,
    Option<WindowInfo>,
) {
    match t.pending {
        Some(p) => if now - p.last_change_ms < debounce_ms {
            (t, None)
        } else if t.last_hwnd != p.hwnd {
            (WindowTracker { pending: None, ..t }, None)
        } else {
            (WindowTracker { pending: None, ..t }, Some(p.info))
        },
        None => (t, None),
    }
}

impl WindowTracker {
    pub fn new() -> (r: WindowTracker)
        ensures
            r.last_hwnd == 0,
            r.last_rect is None,
            r.pending is None,
    {
        WindowTracker { last_hwnd: 0, last_rect: None, pending: None }
    }

    /// Records that `hwnd`, described by `info`, is in the foreground at
    /// `now_ms`. A new window drops any pending rectangle change; a changed
    /// rectangle of the same window is reported at once when `debounce_ms`
    /// is not positive, and otherwise (re)starts the debounce interval.
    pub fn observe(&mut self, hwnd: isize, info: WindowInfo, now_ms: i64, debounce_ms: i64) -> (r:
        WindowUpdate)
        ensures
            (*final(self), r) == observe_step(*old(self), hwnd, info, now_ms, debounce_ms as int),
    {
        let is_new = hwnd != self.last_hwnd;
        let rect_changed = is_new || !same_rect(&info.rect, &self.last_rect);
        self.last_hwnd = hwnd;
        self.last_rect = info.rect;
        if is_new {
            self.pending = None;
        } else if rect_changed && debounce_ms > 0 {
            self.pending = Some(PendingRect { hwnd, info, last_change_ms: now_ms });
        }
        WindowUpdate { is_new, rect_now: rect_changed && !is_new && debounce_ms <= 0 }
    }

    /// The debounce check: a pending change is reported once the window has
    /// been still for `debounce_ms`, and only if that window is still the
    /// foreground one; a change of a window that lost the foreground is
    /// dropped.
    pub fn flush_pending(&mut self, now_ms: i64, debounce_ms: i64) -> (r: Option<WindowInfo>)
        ensures
            (*final(self), r) == check_step(*old(self), now_ms, debounce_ms as int),
    {
        let due = match &self.pending {
            Some(p) => (now_ms as i128) - (p.last_change_ms as i128) >= debounce_ms as i128,
            None => false,
        };
        if !due {
            return None;
        }
        match self.pending.take() {
            Some(p) => if self.last_hwnd != p.hwnd {
                None
            } else {
                Some(p.info)
            },
            None => None,
        }
    }
}

/// The tracker after observing `hwnd` with `infos[i]` at `times[i]` in
/// turn, and whether any observation asked for an immediate report.
pub open spec fn run_observations(
    t: WindowTracker,
    hwnd: isize,
    infos: Seq<WindowInfo>,
    times: Seq<i64>,
    debounce_ms: int,
) -> (WindowTracker, bool)
    decreases infos.len(),
{
    if infos.len() == 0 {
        (t, false)
    } else {
        let prev = run_observations(
            t,
            hwnd,
            infos.drop_last(),
            times.drop_last(),
            debounce_ms,
        );
        let step = observe_step(prev.0, hwnd, infos.last(), times[infos.len() - 1], debounce_ms);
        (step.0, prev.1 || step.1.is_new || step.1.rect_now)
    }
}

/// Each rectangle differs from the one before it, the first from `first`.
pub open spec fn all_changes(first: Option<RectInfo>, infos: Seq<WindowInfo>) -> bool {
    &&& infos.len() > 0 ==> infos[0].rect != first
    &&& forall|i: int| 1 <= i < infos.len() ==> #[trigger] infos[i].rect != infos[i - 1].rect
}

proof fn lemma_run_changes(
    t: WindowTracker,
    hwnd: isize,
    infos: Seq<WindowInfo>,
    times: Seq<i64>,
    debounce_ms: int,
)
    requires
        t.last_hwnd == hwnd,
        debounce_ms > 0,
        infos.len() >= 1,
        times.len() == infos.len(),
        all_changes(t.last_rect, infos),
    ensures
        !run_observations(t, hwnd, infos, times, debounce_ms).1,
        run_observations(t, hwnd, infos, times, debounce_ms).0 == (WindowTracker {
            last_hwnd: hwnd,
            last_rect: infos.last().rect,
            pending: Some(
                PendingRect {
                    hwnd,
                    info: infos.last(),
                    last_change_ms: times[times.len() - 1],
                },
            ),
        }),
    decreases infos.len(),
{
    if infos.len() > 1 {
        let pi = infos.drop_last();
        assert(all_changes(t.last_rect, pi)) by {
            assert forall|i: int| 1 <= i < pi.len() implies #[trigger] pi[i].rect != pi[i
                - 1].rect by {
                assert(pi[i] == infos[i] && pi[i - 1] == infos[i - 1]);
            }
        }
        let pt = times.drop_last();
        lemma_run_changes(t, hwnd, pi, pt, debounce_ms);
        let n = infos.len() - 1;
        assert(infos[n].rect != infos[n - 1].rect);
        assert(pi.last() == infos[n - 1]);
    } else {
        assert(infos.drop_last().len() == 0);
        assert(run_observations(t, hwnd, infos.drop_last(), times.drop_last(), debounce_ms) == (
            t,
            false,
        ));
    }
}

/// A rectangle change of the foreground window followed by further changes
/// reports nothing while they come; a debounce check made before the window
/// has been still for the interval reports nothing and changes nothing; the
/// first check after it reports exactly one change, the final rectangle,
/// and leaves nothing pending. If another window comes to the foreground
/// first, the pending change is dropped and no check reports it.
pub proof fn lemma_rect_debounce(
    t: WindowTracker,
    hwnd: isize,
    infos: Seq<WindowInfo>,
    times: Seq<i64>,
    debounce_ms: int,
    early: i64,
    late: i64,
    other: isize,
    other_info: WindowInfo,
    other_time: i64,
    later: i64,
)
    requires
        t.last_hwnd == hwnd,
        debounce_ms > 0,
        infos.len() >= 1,
        times.len() == infos.len(),
        all_changes(t.last_rect, infos),
        early < times[times.len() - 1] + debounce_ms,
        late >= times[times.len() - 1] + debounce_ms,
        other != hwnd,
    ensures
        !run_observations(t, hwnd, infos, times, debounce_ms).1,
        check_step(run_observations(t, hwnd, infos, times, debounce_ms).0, early, debounce_ms)
            == (run_observations(t, hwnd, infos, times, debounce_ms).0, None::<WindowInfo>),
        check_step(run_observations(t, hwnd, infos, times, debounce_ms).0, late, debounce_ms).1
            == Some(infos.last()),
        check_step(run_observations(t, hwnd, infos, times, debounce_ms).0, late, debounce_ms).0.pending
            is None,
        ({
            let moved = observe_step(
                run_observations(t, hwnd, infos, times, debounce_ms).0,
                other,
                other_info,
                other_time,
                debounce_ms,
            );
            moved.1.is_new && moved.0.pending is None && check_step(moved.0, later, debounce_ms).1
                is None
        }),
{
    lemma_run_changes(t, hwnd, infos, times, debounce_ms);
}

} // verus!

//! Pointer filtering: which pointer notifications become events. Moves are
//! rate-limited, clicks filtered by press/release mode, and wheel ticks
//! handed to the scroll aggregator.
use vstd::prelude::*;
use crate::event::EventKind;

verus! {

/// Which click transitions are recorded.
#[derive(Clone, Copy, Debug, PartialEq, Eq, Structural)]
pub enum MouseClickMode {
    Down,
    Up,
    Both,
}

/// One low-level pointer notification.
#[derive(Clone, Copy, Debug, PartialEq, Eq, Structural)]
pub enum MouseMsg {
    Move,
    LeftDown,
    LeftUp,
    RightDown,
    RightUp,
    MiddleDown,
    MiddleUp,
    Wheel(i32),
    Other,
}

impl MouseMsg {
    pub open spec fn is_press(self) -> bool {
        self is LeftDown || self is RightDown || self is MiddleDown
    }

    pub open spec fn is_release(self) -> bool {
        self is LeftUp || self is RightUp || self is MiddleUp
    }

    /// The button tag of a click, as text.
    pub open spec fn button_tag(self) -> Option<Seq<char>> {
        match self {
            MouseMsg::LeftDown => Some("left_down"@),
            MouseMsg::LeftUp => Some("left_up"@),
            MouseMsg::RightDown => Some("right_down"@),
            MouseMsg::RightUp => Some("right_up"@),
            MouseMsg::MiddleDown => Some("middle_down"@),
            MouseMsg::MiddleUp => Some("middle_up"@),
            _ => None,
        }
    }

    /// The button tag of a click.
    pub fn button(&self) -> (r: Option<&'static str>)
        ensures
            r is Some <==> (self.is_press() || self.is_release()),
            match r {
                Some(t) => self.button_tag() == Some(t@),
                None => self.button_tag() is None,
            },
    {
        match self {
            MouseMsg::LeftDown => Some("left_down"),
            MouseMsg::LeftUp => Some("left_up"),
            MouseMsg::RightDown => Some("right_down"),
            MouseMsg::RightUp => Some("right_up"),
            MouseMsg::MiddleDown => Some("middle_down"),
            MouseMsg::MiddleUp => Some("middle_up"),
            _ => None,
        }
    }
}

/// What a pointer notification calls for.
#[derive(Clone, Copy, Debug, PartialEq, Eq, Structural)]
pub enum PointerAction {
    Ignore,
    /// Emit a move or click event.
    Emit(EventKind),
    /// Hand the wheel delta to the scroll aggregator.
    Scroll(i32),
}

/// Pointer capture settings and the time of the last recorded move.
#[derive(Clone, Copy, Debug)]
pub struct PointerFilter {
    pub emit_move: bool,
    pub emit_click: bool,
    pub emit_scroll: bool,
    pub click_mode: MouseClickMode,
    pub move_interval_ms: i64,
    /// Monotonic time of the last recorded move; negative before the first.
    pub last_move_ms: i64,
}

/// Whether a click passes the click mode.
pub open spec fn click_allowed(mode: MouseClickMode, m: MouseMsg) -> bool {
    match mode {
        MouseClickMode::Down => m.is_press(),
        MouseClickMode::Up => m.is_release(),
        MouseClickMode::Both => m.is_press() || m.is_release(),
    }
}

impl PointerFilter {
    /// The action for `m` at monotonic time `now`, and the new time of the
    /// last recorded move.
    pub open spec fn step(self, m: MouseMsg, now: i64) -> (PointerAction, i64) {
        match m {
            MouseMsg::Move => if !self.emit_move {
                (PointerAction::Ignore, self.last_move_ms)
            } else if self.last_move_ms >= 0 && now - self.last_move_ms < self.move_interval_ms {
                (PointerAction::Ignore, self.last_move_ms)
            } else {
                (PointerAction::Emit(EventKind::MouseMove), now)
            },
            MouseMsg::Wheel(d) => if self.emit_scroll {
                (PointerAction::Scroll(d), self.last_move_ms)
            } else {
                (PointerAction::Ignore, self.last_move_ms)
            },
            MouseMsg::Other => (PointerAction::Ignore, self.last_move_ms),
            _ => if self.emit_click && click_allowed(self.click_mode, m) {
                (PointerAction::Emit(EventKind::MouseClick), self.last_move_ms)
            } else {
                (PointerAction::Ignore, self.last_move_ms)
            },
        }
    }

    /// Classifies one pointer notification at monotonic time `now_ms`:
    /// moves at most once per interval, clicks by mode, wheel ticks to the
    /// aggregator, each only when its class is enabled.
    pub fn on_mouse(&mut self, m: MouseMsg, now_ms: i64) -> (r: PointerAction)
        ensures
            (r, final(self).last_move_ms) == old(self).step(m, now_ms),
            final(self).emit_move == old(self).emit_move,
            final(self).emit_click == old(self).emit_click,
            final(self).emit_scroll == old(self).emit_scroll,
            final(self).click_mode == old(self).click_mode,
            final(self).move_interval_ms == old(self).move_interval_ms,
    {
        match m {
            MouseMsg::Move => {
                if !self.emit_move {
                    return PointerAction::Ignore;
                }
                if self.last_move_ms >= 0 && (now_ms as i128) - (self.last_move_ms as i128)
                    < self.move_interval_ms as i128 {
                    return PointerAction::Ignore;
                }
                self.last_move_ms = now_ms;
                PointerAction::Emit(EventKind::MouseMove)
            },
            MouseMsg::Wheel(d) => if self.emit_scroll {
                PointerAction::Scroll(d)
            } else {
                PointerAction::Ignore
            },
            MouseMsg::Other => PointerAction::Ignore,
            _ => {
                let press = matches!(
                    m,
                    MouseMsg::LeftDown | MouseMsg::RightDown | MouseMsg::MiddleDown
                );
                let release = matches!(m, MouseMsg::LeftUp | MouseMsg::RightUp | MouseMsg::MiddleUp);
                let allow = match self.click_mode {
                    MouseClickMode::Down => press,
                    MouseClickMode::Up => release,
                    MouseClickMode::Both => press || release,
                };
                if self.emit_click && allow {
                    PointerAction::Emit(EventKind::MouseClick)
                } else {
                    PointerAction::Ignore
                }
            },
        }
    }
}

} // verus!

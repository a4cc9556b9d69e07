//! A reusable cursor-plus-scroll-window calculator.
//!
//! A [`ScrollProvider`] keeps a cursor line and a scroll offset consistent
//! with a visible window of `frame_height` lines over a list that may have
//! an upper bound on its number of lines.  When the bound is present the
//! cursor is always a valid line index; when it is absent the tracker is in
//! free-scroll mode and only the scroll offset is meaningful.
//!
//! All arithmetic saturates: no operation moves the cursor below line zero
//! or past the last line of a bounded list.

use vstd::prelude::*;

verus! {

/// The abstract state of a [`ScrollProvider`].
pub ghost struct ViewportView {
    /// The line the cursor is on.
    pub cursor_line: u32,
    /// The first visible line.
    pub scroll_offset: u32,
    /// The number of visible lines; always at least one.
    pub frame_height: u32,
    /// The number of selectable lines, or `None` in free-scroll mode;
    /// when present, always at least one.
    pub item_count: Option<u32>,
}

impl ViewportView {
    /// Structural well-formedness: the window is at least one line high,
    /// the scroll offset never passes the cursor, and under a bound the
    /// cursor is a valid line index.
    pub open spec fn inv(self) -> bool {
        &&& self.frame_height >= 1
        &&& self.scroll_offset <= self.cursor_line
        &&& match self.item_count {
            Some(n) => n >= 1 && self.cursor_line < n,
            None => true,
        }
    }

    /// The cursor lies inside the visible window.
    pub open spec fn contained(self) -> bool {
        self.cursor_line < self.scroll_offset + self.frame_height
    }
}

/// A positive count: zero is coerced to one.
pub open spec fn at_least_one(n: u32) -> u32 {
    if n == 0 {
        1u32
    } else {
        n
    }
}

/// The cursor position reached by asking for raw line `raw`: under a bound
/// the request is clamped to the last valid line.
pub open spec fn clamp_line(v: ViewportView, raw: u32) -> u32 {
    match v.item_count {
        Some(n) => if raw < n {
            raw
        } else {
            (n - 1) as u32
        },
        None => raw,
    }
}

/// Moving the cursor down to raw position `raw`: the cursor is clamped to
/// the bound, and if it then falls below the bottom of the window the
/// window is scrolled down by the minimal amount that recaptures it.
pub open spec fn spec_go_down(v: ViewportView, raw: u32) -> ViewportView {
    let line = clamp_line(v, raw);
    let scroll = if line >= v.scroll_offset && line - v.scroll_offset >= v.frame_height {
        (line - v.frame_height + 1) as u32
    } else {
        v.scroll_offset
    };
    ViewportView { cursor_line: line, scroll_offset: scroll, ..v }
}

/// The effect of [`ScrollProvider::scroll_down`].
pub open spec fn spec_scroll_down(v: ViewportView, amount: u32) -> ViewportView {
    spec_go_down(v, v.cursor_line.saturating_add(amount))
}

/// The effect of [`ScrollProvider::scroll_up`]: the cursor moves up with
/// saturation, and if it leaves the window through the top the window is
/// scrolled up exactly onto it.
pub open spec fn spec_scroll_up(v: ViewportView, amount: u32) -> ViewportView {
    let line = v.cursor_line.saturating_sub(amount);
    let scroll = if line < v.scroll_offset {
        line
    } else {
        v.scroll_offset
    };
    ViewportView { cursor_line: line, scroll_offset: scroll, ..v }
}

/// The effect of [`ScrollProvider::move_down`]: snap the cursor to the
/// bottom edge of the window, then scroll down.
pub open spec fn spec_move_down(v: ViewportView, amount: u32) -> ViewportView {
    spec_go_down(
        v,
        v.scroll_offset.saturating_add((v.frame_height - 1) as u32).saturating_add(amount),
    )
}

/// The effect of [`ScrollProvider::move_up`]: snap the cursor to the top
/// edge of the window, then scroll up.
pub open spec fn spec_move_up(v: ViewportView, amount: u32) -> ViewportView {
    spec_scroll_up(ViewportView { cursor_line: v.scroll_offset, ..v }, amount)
}

/// The effect of [`ScrollProvider::set_max`]: the bound becomes
/// `max(new_count, 1)`; a cursor at or past the new bound is forced to the
/// new last line with the tail of the list visible.
pub open spec fn spec_set_max(v: ViewportView, new_count: u32) -> ViewportView {
    let n = at_least_one(new_count);
    if v.cursor_line >= n {
        ViewportView {
            cursor_line: (n - 1) as u32,
            scroll_offset: n.saturating_sub(v.frame_height),
            item_count: Some(n),
            ..v
        }
    } else {
        ViewportView { item_count: Some(n), ..v }
    }
}

/// The effect of [`ScrollProvider::reset`].
pub open spec fn spec_reset(v: ViewportView) -> ViewportView {
    ViewportView { cursor_line: 0, scroll_offset: 0, ..v }
}

/// A cursor and scroll-window tracker for one scrollable region.
pub struct ScrollProvider {
    current_scroll: u32,
    frame_height: u32,
    current_line: u32,
    maximum_lines: Option<u32>,
}

impl View for ScrollProvider {
    type V = ViewportView;

    closed spec fn view(&self) -> ViewportView {
        ViewportView {
            cursor_line: self.current_line,
            scroll_offset: self.current_scroll,
            frame_height: self.frame_height,
            item_count: self.maximum_lines,
        }
    }
}

impl ScrollProvider {
    /// The structural invariant of every tracker value, maintained by
    /// every operation.
    #[verifier::type_invariant]
    pub open spec fn type_inv(self) -> bool {
        self@.inv()
    }

    /// Create a tracker with the given frame height and bound.  A zero
    /// frame height is coerced to one, as is a zero bound.
    pub fn new(frame_height: u32, maximum_lines: Option<u32>) -> (r: Self)
        ensures
            r@.cursor_line == 0,
            r@.scroll_offset == 0,
            r@.frame_height == at_least_one(frame_height),
            r@.item_count == match maximum_lines {
                Some(n) => Some(at_least_one(n)),
                None => None::<u32>,
            },
    {
        let fh = if frame_height == 0 {
            1
        } else {
            frame_height
        };
        let max = match maximum_lines {
            Some(n) => Some(if n == 0 {
                1
            } else {
                n
            }),
            None => None,
        };
        Self { current_scroll: 0, current_line: 0, frame_height: fh, maximum_lines: max }
    }

    /// The first visible line.
    pub fn get_scroll(&self) -> (r: u32)
        ensures
            r == self@.scroll_offset,
    {
        self.current_scroll
    }

    /// The line the cursor is on.
    pub fn get_line(&self) -> (r: u32)
        ensures
            r == self@.cursor_line,
    {
        self.current_line
    }

    /// Move the cursor down to raw position `raw`, clamping and scrolling
    /// as [`spec_go_down`] describes.
    fn go_down(&mut self, raw: u32)
        requires
            raw >= old(self)@.scroll_offset,
        ensures
            final(self)@ == spec_go_down(old(self)@, raw),
    {
        proof {
            use_type_invariant(&*self);
        }
        let mut new_line = raw;
        if let Some(max) = self.maximum_lines {
            if new_line >= max {
                new_line = max - 1;
            }
        }

        let new_scroll = if new_line >= self.current_scroll
            && new_line - self.current_scroll >= self.frame_height {
            new_line - self.frame_height + 1
        } else {
            self.current_scroll
        };

        *self = Self {
            current_scroll: new_scroll,
            current_line: new_line,
            frame_height: self.frame_height,
            maximum_lines: self.maximum_lines,
        };
    }

    /// Move the cursor `amount` lines down, clamped to the last line when
    /// bounded; the window follows the cursor without overshooting.
    pub fn scroll_down(&mut self, amount: u32)
        ensures
            final(self)@ == spec_scroll_down(old(self)@, amount),
    {
        proof {
            use_type_invariant(&*self);
        }
        let raw = self.current_line.saturating_add(amount);
        self.go_down(raw);
    }

    /// Move the cursor `amount` lines up, saturating at line zero; the
    /// window follows the cursor without overshooting.
    pub fn scroll_up(&mut self, amount: u32)
        ensures
            final(self)@ == spec_scroll_up(old(self)@, amount),
    {
        proof {
            use_type_invariant(&*self);
        }
        let new_line = self.current_line.saturating_sub(amount);

        if new_line < self.current_scroll {
            self.current_scroll = new_line;
        }

        self.current_line = new_line;
    }

    /// Snap the cursor to the bottom edge of the window, then scroll down
    /// by `amount`.
    pub fn move_down(&mut self, amount: u32)
        ensures
            final(self)@ == spec_move_down(old(self)@, amount),
    {
        proof {
            use_type_invariant(&*self);
        }
        let bottom = self.current_scroll.saturating_add(self.frame_height - 1);
        self.go_down(bottom.saturating_add(amount));
    }

    /// Snap the cursor to the top edge of the window, then scroll up by
    /// `amount`.
    pub fn move_up(&mut self, amount: u32)
        ensures
            final(self)@ == spec_move_up(old(self)@, amount),
    {
        proof {
            use_type_invariant(&*self);
        }
        self.current_line = self.current_scroll;
        let new_line = self.current_line.saturating_sub(amount);

        if new_line < self.current_scroll {
            self.current_scroll = new_line;
        }

        self.current_line = new_line;
    }

    /// Rebind the upper bound to `max(new_count, 1)`.  A cursor at or past
    /// the new bound is forced to the new last line and the scroll offset
    /// is recomputed so the tail of the list is visible.
    pub fn set_max(&mut self, new_count: u32)
        ensures
            final(self)@ == spec_set_max(old(self)@, new_count),
    {
        proof {
            use_type_invariant(&*self);
        }
        let mut max = new_count;
        if max == 0 {
            max = 1;
        }
        let (new_line, new_scroll) = if self.current_line >= max {
            (max - 1, max.saturating_sub(self.frame_height))
        } else {
            (self.current_line, self.current_scroll)
        };
        *self = Self {
            current_scroll: new_scroll,
            current_line: new_line,
            frame_height: self.frame_height,
            maximum_lines: Some(max),
        };
    }

    /// Remove the bound: the tracker enters free-scroll mode.
    pub fn clear_max(&mut self)
        ensures
            final(self)@ == (ViewportView { item_count: None, ..old(self)@ }),
    {
        proof {
            use_type_invariant(&*self);
        }
        self.maximum_lines = None;
    }

    /// Update the visible window size only; a zero height is coerced to
    /// one.  Cursor and scroll are untouched, so the cursor may fall
    /// outside the window until the next scroll call recaptures it.
    pub fn update_frame_height(&mut self, height: u32)
        ensures
            final(self)@ == (ViewportView { frame_height: at_least_one(height), ..old(self)@ }),
    {
        proof {
            use_type_invariant(&*self);
        }
        self.frame_height = if height == 0 {
            1
        } else {
            height
        };
    }

    /// Cursor and scroll both return to line zero, whatever the prior
    /// state.
    pub fn reset(&mut self)
        ensures
            final(self)@ == spec_reset(old(self)@),
            final(self)@.cursor_line == 0,
            final(self)@.scroll_offset == 0,
    {
        proof {
            use_type_invariant(&*self);
        }
        self.current_scroll = 0;
        self.current_line = 0;
    }
}

/// One cursor-navigation operation on a tracker.
pub ghost enum NavOp {
    ScrollDown(u32),
    ScrollUp(u32),
    MoveDown(u32),
    MoveUp(u32),
}

/// The effect of one navigation operation.
pub open spec fn apply_nav(v: ViewportView, op: NavOp) -> ViewportView {
    match op {
        NavOp::ScrollDown(a) => spec_scroll_down(v, a),
        NavOp::ScrollUp(a) => spec_scroll_up(v, a),
        NavOp::MoveDown(a) => spec_move_down(v, a),
        NavOp::MoveUp(a) => spec_move_up(v, a),
    }
}

/// The effect of a sequence of navigation operations, first to last.
pub open spec fn apply_nav_seq(v: ViewportView, ops: Seq<NavOp>) -> ViewportView
    decreases ops.len(),
{
    if ops.len() == 0 {
        v
    } else {
        apply_nav_seq(apply_nav(v, ops[0]), ops.drop_first())
    }
}

/// Moving down to any raw position at or past the scroll offset keeps the
/// tracker well formed and the cursor inside the window.
proof fn lemma_go_down(v: ViewportView, raw: u32)
    requires
        v.inv(),
        v.contained(),
        raw >= v.scroll_offset,
    ensures
        spec_go_down(v, raw).inv(),
        spec_go_down(v, raw).contained(),
{
}

/// Containment invariant, one step: each navigation operation on a well
/// formed tracker whose cursor is inside the window leaves the tracker
/// well formed with the cursor inside the window.  In particular, under a
/// bound the cursor never moves past the last line (the bound clamps
/// downward movement) and never below line zero (upward movement
/// saturates).
pub proof fn lemma_nav_preserves(v: ViewportView, op: NavOp)
    ensures
        v.inv() && v.contained() ==> apply_nav(v, op).inv() && apply_nav(v, op).contained(),
{
    if v.inv() && v.contained() {
        match op {
            NavOp::ScrollDown(a) => {
                lemma_go_down(v, v.cursor_line.saturating_add(a));
            },
            NavOp::MoveDown(a) => {
                lemma_go_down(
                    v,
                    v.scroll_offset.saturating_add((v.frame_height - 1) as u32).saturating_add(a),
                );
            },
            NavOp::ScrollUp(_) => {},
            NavOp::MoveUp(_) => {},
        }
    }
}

/// Containment invariant: after any sequence of `scroll_down`,
/// `scroll_up`, `move_down` and `move_up` calls on a well formed tracker
/// whose cursor starts inside the window, the cursor is still a valid
/// line index and still lies inside the window.  Since every prefix of the
/// sequence is itself such a sequence, the invariant holds after each
/// call.
pub proof fn lemma_nav_seq_preserves(v: ViewportView, ops: Seq<NavOp>)
    requires
        v.inv(),
        v.contained(),
    ensures
        apply_nav_seq(v, ops).inv(),
        apply_nav_seq(v, ops).contained(),
    decreases ops.len(),
{
    if ops.len() > 0 {
        lemma_nav_preserves(v, ops[0]);
        lemma_nav_seq_preserves(apply_nav(v, ops[0]), ops.drop_first());
    }
}

/// Monotonic clamp: on a bounded tracker `scroll_down` never produces a
/// cursor past the last line, and `scroll_up` never moves the cursor or
/// the scroll offset below zero (they are unsigned and saturate).
pub proof fn lemma_scroll_clamp(v: ViewportView, amount: u32)
    requires
        v.inv(),
    ensures
        v.item_count matches Some(n) ==> spec_scroll_down(v, amount).cursor_line <= n - 1,
        spec_scroll_up(v, amount).cursor_line >= 0,
        spec_scroll_up(v, amount).scroll_offset >= 0,
{
}

/// Rebind stability: with the cursor on line `c`, `set_max(n)` with
/// `n > c` leaves the cursor unchanged, while `n <= c` (with `n >= 1`)
/// forces the cursor to the new last line `n - 1` and recomputes the
/// scroll offset as `n` minus the frame height, saturating at zero.
pub proof fn lemma_set_max_rebind(v: ViewportView, n: u32)
    requires
        v.inv(),
        n >= 1,
    ensures
        n > v.cursor_line ==> spec_set_max(v, n).cursor_line == v.cursor_line
            && spec_set_max(v, n).scroll_offset == v.scroll_offset,
        n <= v.cursor_line ==> spec_set_max(v, n).cursor_line == n - 1
            && spec_set_max(v, n).scroll_offset == n.saturating_sub(v.frame_height),
        spec_set_max(v, n).item_count == Some(n),
{
}

/// A rebind to a zero count coerces the bound to one and pulls the cursor
/// to line zero: the tracker never ends in a zero-bound state.
pub proof fn lemma_set_max_zero(v: ViewportView)
    requires
        v.inv(),
    ensures
        spec_set_max(v, 0).item_count == Some(1u32),
        spec_set_max(v, 0).cursor_line == 0,
{
}

} // verus!

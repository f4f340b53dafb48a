use vstd::prelude::*;

verus! {

/// Abstract state of a [`Viewport`]: the first line shown and how many lines
/// are shown.
pub struct ViewportModel {
    pub first: int,
    pub height: int,
}

impl ViewportModel {
    pub open spec fn wf(self) -> bool {
        self.first >= 0 && self.height > 0
    }

    /// Line `line` is inside the window.
    pub open spec fn shows(self, line: int) -> bool {
        self.first <= line < self.first + self.height
    }

    pub open spec fn with_first(self, first: int) -> ViewportModel {
        ViewportModel { first, ..self }
    }

    /// The window moved the least that brings `line` into it.
    pub open spec fn synced(self, line: int) -> ViewportModel {
        if line < self.first {
            self.with_first(line)
        } else if line >= self.first + self.height {
            self.with_first(line - self.height + 1)
        } else {
            self
        }
    }

    pub open spec fn scrolled_up(self) -> ViewportModel {
        if self.first > 0 {
            self.with_first(self.first - 1)
        } else {
            self
        }
    }

    /// One line further down, unless the window already reaches the last of
    /// `total` lines.
    pub open spec fn scrolled_down(self, total: int) -> ViewportModel {
        if self.first + self.height < total {
            self.with_first(self.first + 1)
        } else {
            self
        }
    }

    /// One window height up, stopping at the first line.
    pub open spec fn paged_up(self) -> ViewportModel {
        self.with_first(
            if self.first >= self.height {
                self.first - self.height
            } else {
                0
            },
        )
    }

    /// One window height down, stopping where the window's bottom meets the
    /// last of `total` lines (or at the top, when all of them fit).
    pub open spec fn paged_down(self, total: int) -> ViewportModel {
        let max_first = if total >= self.height {
            total - self.height
        } else {
            0
        };
        self.with_first(
            if self.first + self.height <= max_first {
                self.first + self.height
            } else {
                max_first
            },
        )
    }

    /// End (exclusive) of the lines to draw out of `total`.
    pub open spec fn visible_end(self, total: int) -> int {
        if self.first + self.height <= total {
            self.first + self.height
        } else {
            total
        }
    }
}

/// The window of document lines that is drawn on the screen.
#[derive(Debug, Clone, Copy, PartialEq, Eq, Structural)]
pub struct Viewport {
    viewport_start: usize,
    viewport_height: usize,
}

impl View for Viewport {
    type V = ViewportModel;

    closed spec fn view(&self) -> ViewportModel {
        ViewportModel { first: self.viewport_start as int, height: self.viewport_height as int }
    }
}

impl Viewport {
    /// A window of `height` lines showing the document from its first line.
    pub fn new(height: usize) -> (r: Viewport)
        requires
            height > 0,
        ensures
            r@ == (ViewportModel { first: 0, height: height as int }),
            r@.wf(),
    {
        Viewport { viewport_start: 0, viewport_height: height }
    }

    /// Moves the window so that `cursor_line` is inside it, as little as
    /// possible; it stays put when the line is already shown.
    pub fn ensure_cursor_visible(&mut self, cursor_line: usize)
        requires
            old(self)@.wf(),
        ensures
            final(self)@ == old(self)@.synced(cursor_line as int),
            final(self)@.shows(cursor_line as int),
            final(self)@.wf(),
    {
        if cursor_line < self.viewport_start {
            self.viewport_start = cursor_line;
        } else if cursor_line - self.viewport_start >= self.viewport_height {
            self.viewport_start = cursor_line - self.viewport_height + 1;
        }
    }

    /// Scrolls one line up; nothing changes at the top.
    pub fn scroll_up(&mut self)
        requires
            old(self)@.wf(),
        ensures
            final(self)@ == old(self)@.scrolled_up(),
            final(self)@.wf(),
    {
        if self.viewport_start > 0 {
            self.viewport_start = self.viewport_start - 1;
        }
    }

    /// Scrolls one line down, unless the window already reaches the last of
    /// `total_lines` lines.
    pub fn scroll_down(&mut self, total_lines: usize)
        requires
            old(self)@.wf(),
        ensures
            final(self)@ == old(self)@.scrolled_down(total_lines as int),
            final(self)@.wf(),
    {
        if self.viewport_height < total_lines && self.viewport_start < total_lines
            - self.viewport_height {
            self.viewport_start = self.viewport_start + 1;
        }
    }

    /// Scrolls one window height up, stopping at the first line.
    pub fn page_up(&mut self)
        requires
            old(self)@.wf(),
        ensures
            final(self)@ == old(self)@.paged_up(),
            final(self)@.wf(),
    {
        self.viewport_start = if self.viewport_start >= self.viewport_height {
            self.viewport_start - self.viewport_height
        } else {
            0
        };
    }

    /// Scrolls one window height down, stopping where the window's bottom
    /// meets the last of `total_lines` lines.
    pub fn page_down(&mut self, total_lines: usize)
        requires
            old(self)@.wf(),
        ensures
            final(self)@ == old(self)@.paged_down(total_lines as int),
            final(self)@.wf(),
    {
        let max_start = if total_lines >= self.viewport_height {
            total_lines - self.viewport_height
        } else {
            0
        };
        self.viewport_start = if self.viewport_start <= max_start && self.viewport_height
            <= max_start - self.viewport_start {
            self.viewport_start + self.viewport_height
        } else {
            max_start
        };
    }

    pub fn set_viewport_start(&mut self, line: usize)
        requires
            old(self)@.wf(),
        ensures
            final(self)@ == old(self)@.with_first(line as int),
            final(self)@.wf(),
    {
        self.viewport_start = line;
    }

    pub fn get_viewport_start(&self) -> (r: usize)
        ensures
            r == self@.first,
    {
        self.viewport_start
    }

    pub fn get_viewport_height(&self) -> (r: usize)
        ensures
            r == self@.height,
    {
        self.viewport_height
    }

    /// The lines to draw out of `total_lines`: from the first shown line up to,
    /// not including, the returned end.
    pub fn visible_range(&self, total_lines: usize) -> (r: (usize, usize))
        ensures
            r.0 == self@.first,
            r.1 == self@.visible_end(total_lines as int),
    {
        let end = if self.viewport_start <= total_lines && self.viewport_height <= total_lines
            - self.viewport_start {
            self.viewport_start + self.viewport_height
        } else {
            total_lines
        };
        (self.viewport_start, end)
    }

    /// Where on the screen (row, column) the cursor at `line`, `col` is drawn,
    /// or `None` when its line is outside the window.
    pub fn cursor_screen_position(&self, line: usize, col: usize) -> (r: Option<(usize, usize)>)
        ensures
            r is Some <==> self@.shows(line as int),
            r is Some ==> r->0 == ((line - self@.first) as usize, col),
    {
        if line >= self.viewport_start && line - self.viewport_start < self.viewport_height {
            Some((line - self.viewport_start, col))
        } else {
            None
        }
    }
}

} // verus!

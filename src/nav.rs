use vstd::prelude::*;

verus! {

/// The abstract state of the viewport over a listing: the display width of
/// every row, the number of rows the window shows, the scroll offset, the
/// cursor's screen row and column, and the column the user last chose.
pub struct NavState {
    pub widths: Seq<nat>,
    pub height: int,
    pub index: int,
    pub row: int,
    pub col: int,
    pub stored_col: int,
}

/// The largest column the cursor may occupy on a row of width `w`.
pub open spec fn max_col(w: nat) -> int {
    if w == 0 {
        0
    } else if w - 1 > u16::MAX {
        u16::MAX as int
    } else {
        w - 1
    }
}

pub open spec fn min(a: int, b: int) -> int {
    if a <= b {
        a
    } else {
        b
    }
}

impl NavState {
    /// The listing index of the row under the cursor.
    pub open spec fn current(self) -> int {
        self.index + self.row
    }

    pub open spec fn len(self) -> int {
        self.widths.len() as int
    }

    /// The column that the sticky-column rule gives on the row under the cursor.
    pub open spec fn sticky_col(self) -> int {
        min(self.stored_col, max_col(self.widths[self.current()]))
    }

    pub open spec fn inv(self) -> bool {
        &&& self.widths.len() >= 1
        &&& self.height >= 1
        &&& 0 <= self.index
        &&& 0 <= self.row < self.height
        &&& self.current() < self.len()
        &&& 0 <= self.stored_col <= u16::MAX
        &&& self.col == self.sticky_col()
    }

    /// The cursor placed at `index`/`row`, with its column reconciled.
    pub open spec fn placed(self, index: int, row: int) -> NavState {
        let s = NavState { index, row, ..self };
        NavState { col: s.sticky_col(), ..s }
    }

    pub open spec fn down(self) -> NavState {
        if self.current() + 1 >= self.len() {
            self
        } else if self.row + 1 >= self.height {
            self.placed(self.index + 1, self.row)
        } else {
            self.placed(self.index, self.row + 1)
        }
    }

    pub open spec fn up(self) -> NavState {
        if self.current() == 0 {
            self
        } else if self.row == 0 {
            self.placed(self.index - 1, self.row)
        } else {
            self.placed(self.index, self.row - 1)
        }
    }

    pub open spec fn left(self) -> NavState {
        if self.col <= 0 {
            self
        } else {
            NavState { col: self.col - 1, stored_col: self.col - 1, ..self }
        }
    }

    pub open spec fn right(self) -> NavState {
        if self.col >= max_col(self.widths[self.current()]) {
            self
        } else {
            NavState { col: self.col + 1, stored_col: self.col + 1, ..self }
        }
    }

    pub open spec fn first_line(self) -> NavState {
        self.placed(0, 0)
    }

    pub open spec fn last_line(self) -> NavState {
        if self.len() <= self.height {
            self.placed(0, self.len() - 1)
        } else {
            self.placed(self.len() - self.height, self.height - 1)
        }
    }

    /// The cursor on the screen row `row` of the current window, or on the
    /// last row of the listing where the window reaches past it.
    pub open spec fn to_screen_row(self, row: int) -> NavState {
        let i = min(self.index + row, self.len() - 1);
        self.placed(self.index, i - self.index)
    }

    pub open spec fn top(self) -> NavState {
        self.to_screen_row(0)
    }

    pub open spec fn middle(self) -> NavState {
        self.to_screen_row(self.height / 2)
    }

    pub open spec fn bottom(self) -> NavState {
        self.to_screen_row(self.height - 1)
    }

    /// The window now shows `height` rows; the cursor keeps its row where it
    /// still fits and moves to the last visible row where it does not.
    pub open spec fn resized(self, height: int) -> NavState {
        let s = NavState { height, ..self };
        s.placed(self.index, min(self.row, height - 1))
    }
}

} // verus!

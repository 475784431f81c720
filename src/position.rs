use vstd::prelude::*;

verus! {

/// A column/row pair on the screen; `x` is the column and `y` the row.
#[derive(Clone, Copy, Debug, PartialEq, Eq, Structural)]
pub struct Position {
    pub x: u16,
    pub y: u16,
}

impl Position {
    pub fn new(x: u16, y: u16) -> (p: Position)
        ensures
            p.x == x,
            p.y == y,
    {
        Position { x, y }
    }

    /// The pair `(column, row)`.
    pub fn get(&self) -> (r: (u16, u16))
        ensures
            r == (self.x, self.y),
    {
        (self.x, self.y)
    }

    pub fn move_left(&mut self)
        requires
            old(self).x > 0,
        ensures
            final(self).x == old(self).x - 1,
            final(self).y == old(self).y,
    {
        self.x = self.x - 1;
    }

    pub fn move_up(&mut self)
        requires
            old(self).y > 0,
        ensures
            final(self).x == old(self).x,
            final(self).y == old(self).y - 1,
    {
        self.y = self.y - 1;
    }

    pub fn move_down(&mut self)
        requires
            old(self).y < u16::MAX,
        ensures
            final(self).x == old(self).x,
            final(self).y == old(self).y + 1,
    {
        self.y = self.y + 1;
    }

    pub fn move_right(&mut self)
        requires
            old(self).x < u16::MAX,
        ensures
            final(self).x == old(self).x + 1,
            final(self).y == old(self).y,
    {
        self.x = self.x + 1;
    }

    pub fn set_col(&mut self, col: u16)
        ensures
            final(self).x == col,
            final(self).y == old(self).y,
    {
        self.x = col;
    }

    pub fn set_row(&mut self, row: u16)
        ensures
            final(self).x == old(self).x,
            final(self).y == row,
    {
        self.y = row;
    }

    pub fn col(&self) -> (c: u16)
        ensures
            c == self.x,
    {
        self.x
    }

    pub fn row(&self) -> (r: u16)
        ensures
            r == self.y,
    {
        self.y
    }
}

} // verus!

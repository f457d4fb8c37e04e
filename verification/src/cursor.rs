//! A two-dimensional cell position with clamped movement: every step stays
//! inside `[0, max)` bounds supplied by the caller, and a step against a
//! boundary is a silent no-op.

use vstd::prelude::*;

verus! {

#[derive(Debug, Clone, Copy, PartialEq, Eq, Structural)]
pub struct Cursor {
    pub x: usize,
    pub y: usize,
}

impl Cursor {
    pub fn move_left(&mut self)
        ensures
            final(self).x == if old(self).x > 0 {
                old(self).x - 1
            } else {
                old(self).x as int
            },
            final(self).y == old(self).y,
    {
        if self.x > 0 {
            self.x = self.x - 1;
        }
    }

    pub fn move_right(&mut self, max_width: &usize)
        requires
            *max_width >= 1,
        ensures
            final(self).x == if old(self).x < *max_width - 1 {
                old(self).x + 1
            } else {
                old(self).x as int
            },
            final(self).y == old(self).y,
    {
        if self.x < *max_width - 1 {
            self.x = self.x + 1;
        }
    }

    pub fn move_up(&mut self)
        ensures
            final(self).y == if old(self).y > 0 {
                old(self).y - 1
            } else {
                old(self).y as int
            },
            final(self).x == old(self).x,
    {
        if self.y > 0 {
            self.y = self.y - 1;
        }
    }

    pub fn move_down(&mut self, max_height: &usize)
        requires
            *max_height >= 1,
        ensures
            final(self).y == if old(self).y < *max_height - 1 {
                old(self).y + 1
            } else {
                old(self).y as int
            },
            final(self).x == old(self).x,
    {
        if self.y < *max_height - 1 {
            self.y = self.y + 1;
        }
    }
}

} // verus!

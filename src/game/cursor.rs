//! The cursor that slides a token above the board's columns.
use vstd::prelude::*;

use super::{get_token_x_position, BoardLayout, BOARD_COLUMNS};

verus! {

pub const CURSOR_MOVEMENT_SPEED: u16 = 5;
pub const CURSOR_MOVEMENT_SPEED_FAST: u16 = 20;

/// One step from `x` towards `target` of at most `speed` pixels.
pub open spec fn step_towards(x: int, target: int, speed: int) -> int {
    if x > target {
        if x - target > speed { x - speed } else { target }
    } else {
        if target - x > speed { x + speed } else { target }
    }
}

#[derive(Clone, Copy, Debug, PartialEq, Eq, Structural)]
pub struct Cursor {
    layout: BoardLayout,
    column: usize,
    x_position: u16,
    target_x_position: u16,
    moving: bool,
    speed: u16,
}

impl Cursor {
    pub closed spec fn spec_layout(&self) -> BoardLayout {
        self.layout
    }

    pub closed spec fn spec_column(&self) -> usize {
        self.column
    }

    pub closed spec fn spec_x(&self) -> int {
        self.x_position as int
    }

    pub closed spec fn spec_target_x(&self) -> int {
        self.target_x_position as int
    }

    pub closed spec fn spec_moving(&self) -> bool {
        self.moving
    }

    pub closed spec fn spec_speed(&self) -> int {
        self.speed as int
    }

    pub closed spec fn wf(&self) -> bool {
        &&& self.layout.wf()
        &&& self.column < BOARD_COLUMNS
        &&& self.target_x_position == self.layout.spec_token_x(self.column as int)
    }

    /// A cursor resting over the first column.
    pub fn new(layout: BoardLayout) -> (r: Self)
        requires
            layout.wf(),
        ensures
            r.wf(),
            r.spec_layout() == layout,
            r.spec_column() == 0,
            r.spec_x() == layout.spec_token_x(0),
            !r.spec_moving(),
            r.spec_speed() == CURSOR_MOVEMENT_SPEED,
    {
        let column: usize = 0;
        let x_position = get_token_x_position(&layout, column);
        Self { layout, column, x_position, target_x_position: x_position, moving: false, speed: CURSOR_MOVEMENT_SPEED }
    }

    /// While moving, steps towards the target column's position; the move
    /// ends on reaching it, which also restores the normal speed.
    pub fn update_movement(&mut self)
        requires
            old(self).wf(),
        ensures
            final(self).wf(),
            final(self).spec_column() == old(self).spec_column(),
            final(self).spec_layout() == old(self).spec_layout(),
            !old(self).spec_moving() ==> *final(self) == *old(self),
            old(self).spec_moving() ==> {
                &&& final(self).spec_x() == step_towards(old(self).spec_x(), old(self).spec_target_x(), old(self).spec_speed())
                &&& final(self).spec_moving() == (final(self).spec_x() != old(self).spec_target_x())
                &&& final(self).spec_speed() == if final(self).spec_moving() { old(self).spec_speed() } else { CURSOR_MOVEMENT_SPEED as int }
            },
    {
        if self.moving {
            if self.x_position > self.target_x_position {
                self.x_position = if self.x_position - self.target_x_position > self.speed {
                    self.x_position - self.speed
                } else {
                    self.target_x_position
                };
            } else {
                self.x_position = if self.target_x_position - self.x_position > self.speed {
                    self.x_position + self.speed
                } else {
                    self.target_x_position
                };
            }
            self.moving = self.x_position != self.target_x_position;
            if !self.moving {
                self.speed = CURSOR_MOVEMENT_SPEED;
            }
        }
    }

    /// Starts moving towards column `target_column`.
    pub fn move_to_column(&mut self, target_column: usize)
        requires
            old(self).wf(),
            target_column < BOARD_COLUMNS,
        ensures
            final(self).wf(),
            final(self).spec_column() == target_column,
            final(self).spec_moving(),
            final(self).spec_x() == old(self).spec_x(),
            final(self).spec_speed() == old(self).spec_speed(),
            final(self).spec_layout() == old(self).spec_layout(),
    {
        self.moving = true;
        self.target_x_position = get_token_x_position(&self.layout, target_column);
        self.column = target_column;
    }

    /// Moves one column left, wrapping from the first to the last column at
    /// the fast speed.
    pub fn move_left(&mut self)
        requires
            old(self).wf(),
        ensures
            final(self).wf(),
            final(self).spec_moving(),
            final(self).spec_x() == old(self).spec_x(),
            final(self).spec_layout() == old(self).spec_layout(),
            old(self).spec_column() == 0 ==> final(self).spec_column() == BOARD_COLUMNS - 1
                && final(self).spec_speed() == CURSOR_MOVEMENT_SPEED_FAST,
            old(self).spec_column() > 0 ==> final(self).spec_column() == old(self).spec_column() - 1
                && final(self).spec_speed() == old(self).spec_speed(),
    {
        let target_col: usize = if self.column == 0 {
            self.speed = CURSOR_MOVEMENT_SPEED_FAST;
            BOARD_COLUMNS - 1
        } else {
            self.column - 1
        };
        self.move_to_column(target_col);
    }

    /// Moves one column right, wrapping from the last to the first column at
    /// the fast speed.
    pub fn move_right(&mut self)
        requires
            old(self).wf(),
        ensures
            final(self).wf(),
            final(self).spec_moving(),
            final(self).spec_x() == old(self).spec_x(),
            final(self).spec_layout() == old(self).spec_layout(),
            final(self).spec_column() == (old(self).spec_column() + 1) % (BOARD_COLUMNS as int),
            final(self).spec_speed() == if old(self).spec_column() == BOARD_COLUMNS - 1 {
                CURSOR_MOVEMENT_SPEED_FAST as int
            } else {
                old(self).spec_speed()
            },
    {
        let target_col: usize = (self.column + 1) % BOARD_COLUMNS;
        if target_col < self.column {
            self.speed = CURSOR_MOVEMENT_SPEED_FAST;
        }
        self.move_to_column(target_col);
    }

    pub fn is_moving(&self) -> (r: bool)
        ensures
            r == self.spec_moving(),
    {
        self.moving
    }

    pub fn get_column(&self) -> (r: usize)
        ensures
            r == self.spec_column(),
            self.wf() ==> r < BOARD_COLUMNS,
    {
        self.column
    }

    pub fn layout(&self) -> (r: BoardLayout)
        requires
            self.wf(),
        ensures
            r == self.spec_layout(),
            r.wf(),
    {
        self.layout
    }

    /// Current horizontal position, in pixels.
    pub fn x_position(&self) -> (r: u16)
        ensures
            r == self.spec_x(),
    {
        self.x_position
    }
}

} // verus!

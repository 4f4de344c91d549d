//! A dropped token falls with growing speed to its row and bounces until
//! the bounce is down to one pixel per frame.
use vstd::prelude::*;

use super::TokenColor;

verus! {

pub const TOKEN_DROP_TOP_SPEED: i16 = 15;
pub const TOKEN_DROP_SPEED_GRADIENT: i16 = 1;
pub const TOKEN_DROP_STARTING_SPEED: i16 = 1;
pub const TOKEN_BOUNCE_SPEED_DECAY: i16 = 2;

/// Room above the landing row that the highest bounce needs.
pub const MIN_TARGET_Y: u16 = 28;

/// What a frame of the drop did.
#[derive(Clone, Copy, Debug, PartialEq, Eq, Structural)]
pub enum DropEvent {
    Falling,
    /// The token hit its row and bounced back up (a bounce sound is due).
    Bounced,
    /// The token came to rest in its row.
    Landed,
}

/// A token on its way down into `(column, row)`.
#[derive(Clone, Copy, Debug, PartialEq, Eq, Structural)]
pub struct TokenDroppingState {
    token_color: TokenColor,
    column: usize,
    row: usize,
    current_y: u16,
    target_y: u16,
    speed: i16,
}

impl TokenDroppingState {
    /// The token's colour and the cell it lands in.
    pub closed spec fn spec_cell(&self) -> (TokenColor, usize, usize) {
        (self.token_color, self.column, self.row)
    }

    pub fn cell(&self) -> (r: (TokenColor, usize, usize))
        ensures
            r == self.spec_cell(),
    {
        (self.token_color, self.column, self.row)
    }

    pub closed spec fn spec_y(&self) -> int {
        self.current_y as int
    }

    pub closed spec fn spec_target(&self) -> int {
        self.target_y as int
    }

    pub closed spec fn spec_speed(&self) -> int {
        self.speed as int
    }

    /// The token lies above its row with room for the rest of its rise,
    /// and rests on the row only while moving down.
    pub closed spec fn wf(&self) -> bool {
        &&& self.current_y <= self.target_y
        &&& self.target_y >= MIN_TARGET_Y
        &&& -7 <= self.speed <= TOKEN_DROP_TOP_SPEED
        &&& self.speed < 0 ==> (-self.speed) * (-self.speed + 1) / 2 <= self.current_y
        &&& self.current_y == self.target_y ==> self.speed != 0
    }

    /// A token starting at `start_y` that lands at `target_y`.
    pub fn new(token_color: TokenColor, column: usize, row: usize, start_y: u16, target_y: u16) -> (r: Self)
        requires
            start_y <= target_y,
            target_y >= MIN_TARGET_Y,
        ensures
            r.wf(),
            r.spec_cell() == (token_color, column, row),
            r.spec_y() == start_y,
            r.spec_target() == target_y,
            r.spec_speed() == TOKEN_DROP_STARTING_SPEED,
    {
        Self { token_color, column, row, current_y: start_y, target_y, speed: TOKEN_DROP_STARTING_SPEED }
    }

    pub fn current_y(&self) -> (r: u16)
        ensures
            r == self.spec_y(),
    {
        self.current_y
    }

    /// One frame: move by the speed, stopping at the row, and speed up by
    /// one up to the top speed. On reaching the row the token bounces back
    /// at half that speed, rounded down, or lands when that is one.
    pub fn update(&mut self) -> (r: DropEvent)
        requires
            old(self).wf(),
        ensures
            final(self).wf(),
            final(self).spec_cell() == old(self).spec_cell(),
            final(self).spec_target() == old(self).spec_target(),
            ({
                let y1 = if old(self).spec_y() + old(self).spec_speed() < old(self).spec_target() {
                    old(self).spec_y() + old(self).spec_speed()
                } else {
                    old(self).spec_target()
                };
                let s1 = if old(self).spec_speed() + 1 < TOKEN_DROP_TOP_SPEED { old(self).spec_speed() + 1 } else { TOKEN_DROP_TOP_SPEED as int };
                &&& (r == DropEvent::Falling) == (y1 != old(self).spec_target())
                &&& r == DropEvent::Falling ==> final(self).spec_y() == y1 && final(self).spec_speed() == s1
                &&& r != DropEvent::Falling ==> s1 >= 2 && final(self).spec_y() == y1
                &&& r == DropEvent::Landed <==> (r != DropEvent::Falling && s1 / 2 == 1)
                &&& r == DropEvent::Bounced ==> final(self).spec_speed() == -(s1 / 2)
            }),
    {
        let y: i32 = self.current_y as i32 + self.speed as i32;
        let target = self.target_y as i32;
        let new_y: i32 = if y < target { y } else { target };
        let s = self.speed;
        proof {
            if s < 0 {
                let k = -s as int;
                assert(k * (k + 1) / 2 >= k) by (nonlinear_arith)
                    requires 1 <= k <= 7;
            }
        }
        self.current_y = new_y as u16;
        self.speed = if s + TOKEN_DROP_SPEED_GRADIENT < TOKEN_DROP_TOP_SPEED { s + TOKEN_DROP_SPEED_GRADIENT } else { TOKEN_DROP_TOP_SPEED };
        proof {
            if s < 0 && self.speed < 0 {
                let k = -s as int;
                assert((k - 1) * k / 2 <= k * (k + 1) / 2 - k) by (nonlinear_arith)
                    requires 1 <= k <= 7;
            }
        }
        if self.current_y == self.target_y {
            let half: i16 = ((self.speed as u16) / (TOKEN_BOUNCE_SPEED_DECAY as u16)) as i16;
            if half == 1 {
                DropEvent::Landed
            } else {
                proof {
                    assert(half * (half + 1) / 2 <= 28) by (nonlinear_arith)
                        requires 2 <= half <= 7;
                }
                self.speed = -half;
                DropEvent::Bounced
            }
        } else {
            DropEvent::Falling
        }
    }
}

} // verus!

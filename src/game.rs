//! The board game's rules-free state machines: token colours, directions,
//! menus, the column cursor and the computer player's pacing.
use vstd::prelude::*;

pub mod board;
pub mod cpu_turn;
pub mod cursor;
pub mod player_turn;
pub mod token_drop;

verus! {

/// Number of columns of the board.
pub const BOARD_COLUMNS: usize = 7;
/// Number of rows of the board.
pub const BOARD_ROWS: usize = 6;
pub const SCREEN_WIDTH: u16 = 240;
pub const SCREEN_HEIGHT: u16 = 160;

#[derive(Clone, Copy, Debug, PartialEq, Eq, Structural)]
pub enum TokenColor {
    Red,
    Yellow,
}

impl TokenColor {
    pub open spec fn spec_opposite(&self) -> TokenColor {
        match self {
            TokenColor::Red => TokenColor::Yellow,
            TokenColor::Yellow => TokenColor::Red,
        }
    }

    pub fn opposite(&self) -> (r: TokenColor)
        ensures
            r == self.spec_opposite(),
            r != *self,
    {
        match self {
            TokenColor::Red => TokenColor::Yellow,
            TokenColor::Yellow => TokenColor::Red,
        }
    }
}

/// The eight neighbour directions on the board.
#[derive(Clone, Copy, Debug, PartialEq, Eq, Structural)]
pub enum Direction {
    North,
    East,
    South,
    West,
    NorthEast,
    SouthEast,
    SouthWest,
    NorthWest,
}

impl Direction {
    /// Column and row step of the direction; rows count from the bottom.
    pub open spec fn delta(&self) -> (int, int) {
        match self {
            Direction::North => (0, 1),
            Direction::East => (1, 0),
            Direction::South => (0, -1),
            Direction::West => (-1, 0),
            Direction::NorthEast => (1, 1),
            Direction::SouthEast => (1, -1),
            Direction::SouthWest => (-1, -1),
            Direction::NorthWest => (-1, 1),
        }
    }

    pub open spec fn spec_opposite(&self) -> Direction {
        match self {
            Direction::North => Direction::South,
            Direction::NorthEast => Direction::SouthWest,
            Direction::East => Direction::West,
            Direction::SouthEast => Direction::NorthWest,
            Direction::South => Direction::North,
            Direction::SouthWest => Direction::NorthEast,
            Direction::West => Direction::East,
            Direction::NorthWest => Direction::SouthEast,
        }
    }

    /// The direction pointing the other way.
    pub fn opposite(&self) -> (r: Self)
        ensures
            r == self.spec_opposite(),
            r.delta() == (-self.delta().0, -self.delta().1),
    {
        match self {
            Direction::North => Direction::South,
            Direction::NorthEast => Direction::SouthWest,
            Direction::East => Direction::West,
            Direction::SouthEast => Direction::NorthWest,
            Direction::South => Direction::North,
            Direction::SouthWest => Direction::NorthEast,
            Direction::West => Direction::East,
            Direction::NorthWest => Direction::SouthEast,
        }
    }
}

/// The eight directions, in the order in which lines are searched.
pub open spec fn spec_direction(i: int) -> Direction {
    if i == 0 {
        Direction::North
    } else if i == 1 {
        Direction::East
    } else if i == 2 {
        Direction::South
    } else if i == 3 {
        Direction::West
    } else if i == 4 {
        Direction::NorthEast
    } else if i == 5 {
        Direction::SouthEast
    } else if i == 6 {
        Direction::SouthWest
    } else {
        Direction::NorthWest
    }
}

/// Direction number `i` of the search order.
pub fn direction_at(i: usize) -> (r: Direction)
    requires
        i < 8,
    ensures
        r == spec_direction(i as int),
{
    match i {
        0 => Direction::North,
        1 => Direction::East,
        2 => Direction::South,
        3 => Direction::West,
        4 => Direction::NorthEast,
        5 => Direction::SouthEast,
        6 => Direction::SouthWest,
        _ => Direction::NorthWest,
    }
}

/// Entries of the game-over menu.
#[derive(Clone, Copy, Debug, PartialEq, Eq, Structural)]
pub enum CursorPosition {
    Rematch,
    Quit,
}

impl CursorPosition {
    /// The other entry.
    pub fn next(&self) -> (r: Self)
        ensures
            r != *self,
    {
        match self {
            CursorPosition::Quit => CursorPosition::Rematch,
            CursorPosition::Rematch => CursorPosition::Quit,
        }
    }
}

/// Faces the computer player can make.
#[derive(Clone, Copy, Debug, PartialEq, Eq, Structural)]
pub enum CpuEmotion {
    Neutral,
    Happy,
    Mad,
    Surprised,
    Sad,
}

/// Whom the spinner decides the first turn against.
#[derive(Clone, Copy, Debug, PartialEq, Eq, Structural)]
pub enum SpinnerMode {
    VsCpu,
    VsPlayer,
}

/// The screen to show next.
#[derive(Clone, Copy, Debug, PartialEq, Eq, Structural)]
pub enum ScreenState {
    TitleScreen,
    VsCpuScreen(TokenColor),
    VsCpuSpinnerScreen,
    VsPlayerScreen(TokenColor),
    VsPlayerSpinnerScreen,
}

/// Pixel sizes of the board-slot and token sprites, which come with the
/// game's assets.
#[derive(Clone, Copy, Debug, PartialEq, Eq, Structural)]
pub struct BoardLayout {
    pub slot_width: u16,
    pub slot_height: u16,
    pub token_width: u16,
    pub token_height: u16,
}

impl BoardLayout {
    /// The board fits on the screen with room for a token above it, and a
    /// token fits in a slot.
    pub open spec fn wf(&self) -> bool {
        &&& self.slot_width * BOARD_COLUMNS <= SCREEN_WIDTH
        &&& self.token_height + self.slot_height * BOARD_ROWS <= SCREEN_HEIGHT
        &&& self.token_width <= self.slot_width
        &&& self.token_height <= self.slot_height
    }

    /// Left edge of the board, which is centred horizontally.
    pub open spec fn spec_left(&self) -> int {
        (SCREEN_WIDTH - self.slot_width * BOARD_COLUMNS) / 2
    }

    /// Top edge of the board, which sits at the bottom of the screen.
    pub open spec fn spec_top(&self) -> int {
        SCREEN_HEIGHT - self.slot_height * BOARD_ROWS
    }

    /// Horizontal position of a token centred in column `column`.
    pub open spec fn spec_token_x(&self, column: int) -> int {
        self.spec_left() + column * self.slot_width + (self.slot_width - self.token_width) / 2
    }
}

/// The top-left corner of the board, in pixels.
pub fn board_top_left_corner(layout: &BoardLayout) -> (r: (u16, u16))
    requires
        layout.wf(),
    ensures
        r.0 == layout.spec_left(),
        r.1 == layout.spec_top(),
{
    let board_width_pixels: u16 = layout.slot_width * (BOARD_COLUMNS as u16);
    let board_height_pixels: u16 = layout.slot_height * (BOARD_ROWS as u16);
    let start_y: u16 = SCREEN_HEIGHT - board_height_pixels;
    let start_x: u16 = (SCREEN_WIDTH - board_width_pixels) / 2;
    (start_x, start_y)
}

/// Vertical position of the token held above the board.
pub fn get_token_y_position(layout: &BoardLayout) -> (r: u16)
    requires
        layout.wf(),
    ensures
        r == layout.spec_top() / 2 - layout.token_height / 2,
{
    let (_, start_y) = board_top_left_corner(layout);
    start_y / 2 - layout.token_height / 2
}

/// Horizontal position of a token centred above column `column_number`.
pub fn get_token_x_position(layout: &BoardLayout, column_number: usize) -> (r: u16)
    requires
        layout.wf(),
        column_number < BOARD_COLUMNS,
    ensures
        r == layout.spec_token_x(column_number as int),
{
    let (start_x, _) = board_top_left_corner(layout);
    let padding = (layout.slot_width - layout.token_width) / 2;
    let column: u16 = column_number as u16;
    proof {
        assert(column * layout.slot_width <= 6 * layout.slot_width) by (nonlinear_arith)
            requires column <= 6;
    }
    start_x + column * layout.slot_width + padding
}

} // verus!

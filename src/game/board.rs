//! The board's cells and the rules read from them: free rows, neighbours
//! and lines of four.
use vstd::prelude::*;

use super::{direction_at, spec_direction, Direction, TokenColor, BOARD_COLUMNS, BOARD_ROWS};

verus! {

/// Number of cells of the board.
pub const BOARD_SLOTS: usize = 42;

/// Index of cell `(column, row)`: column by column, each from the bottom row.
pub open spec fn cell_index(column: int, row: int) -> int {
    column * 6 + row
}

pub open spec fn in_board(column: int, row: int) -> bool {
    0 <= column < 7 && 0 <= row < 6
}

/// The cell `j` steps from `(column, row)` in direction `d`.
pub open spec fn step_pos(column: int, row: int, d: Direction, j: int) -> (int, int) {
    (column + j * d.delta().0, row + j * d.delta().1)
}

/// The token at `(column, row)` of the cells `s`; `None` off the board.
pub open spec fn cell_of(s: Seq<Option<TokenColor>>, column: int, row: int) -> Option<TokenColor> {
    if in_board(column, row) {
        s[cell_index(column, row)]
    } else {
        None
    }
}

/// The cell `j` steps away holds a token of `color`.
pub open spec fn matches_at(s: Seq<Option<TokenColor>>, column: int, row: int, d: Direction, color: TokenColor, j: int) -> bool {
    let p = step_pos(column, row, d, j);
    in_board(p.0, p.1) && cell_of(s, p.0, p.1) == Some(color)
}

/// How many cells in a row, at most three, hold `color` going from
/// `(column, row)` in direction `d`, the start excluded.
pub open spec fn run_len(s: Seq<Option<TokenColor>>, column: int, row: int, d: Direction, color: TokenColor) -> int {
    if !matches_at(s, column, row, d, color, 1) {
        0
    } else if !matches_at(s, column, row, d, color, 2) {
        1
    } else if !matches_at(s, column, row, d, color, 3) {
        2
    } else {
        3
    }
}

/// A token of `color` at `(column, row)` would complete a line of four
/// along `d`, counting both ways.
pub open spec fn line_exists(s: Seq<Option<TokenColor>>, column: int, row: int, d: Direction, color: TokenColor) -> bool {
    run_len(s, column, row, d, color) + run_len(s, column, row, d.spec_opposite(), color) >= 3
}

/// Some direction gives a line of four.
pub open spec fn wins(s: Seq<Option<TokenColor>>, column: int, row: int, color: TokenColor) -> bool {
    exists|k: int| 0 <= k < 8 && line_exists(s, column, row, spec_direction(k), color)
}

/// The lowest empty row of `column`.
pub open spec fn next_free_row(s: Seq<Option<TokenColor>>, column: int) -> Option<int> {
    if exists|r: int| 0 <= r < 6 && cell_of(s, column, r) is None {
        Some(choose|r: int| 0 <= r < 6 && cell_of(s, column, r) is None
            && forall|q: int| 0 <= q < r ==> cell_of(s, column, q) is Some)
    } else {
        None
    }
}

/// Dropping a token of `color` into `column` wins.
pub open spec fn can_win(s: Seq<Option<TokenColor>>, column: int, color: TokenColor) -> bool {
    next_free_row(s, column) matches Some(row) && wins(s, column, row, color)
}

/// The cells once a token of `color` is dropped into `column`.
pub open spec fn after_move(s: Seq<Option<TokenColor>>, column: int, color: TokenColor) -> Seq<Option<TokenColor>> {
    match next_free_row(s, column) {
        Some(row) => s.update(cell_index(column, row), Some(color)),
        None => s,
    }
}

/// Four cells forming a line through a token.
pub type WinningPositions = [usize; 4];

/// The cells of the board: `None` for empty.
pub struct GameBoard {
    matrix: Vec<Option<TokenColor>>,
}

impl GameBoard {
    pub closed spec fn view(&self) -> Seq<Option<TokenColor>> {
        self.matrix@
    }

    pub open spec fn wf(&self) -> bool {
        self@.len() == BOARD_SLOTS
    }

    /// The token at `(column, row)`; `None` off the board.
    pub open spec fn cell(&self, column: int, row: int) -> Option<TokenColor> {
        cell_of(self@, column, row)
    }

    pub open spec fn run_len(&self, column: int, row: int, d: Direction, color: TokenColor) -> int {
        run_len(self@, column, row, d, color)
    }

    pub open spec fn line_exists(&self, column: int, row: int, d: Direction, color: TokenColor) -> bool {
        line_exists(self@, column, row, d, color)
    }

    /// The four cells of a line: the start, the run along `d`, then the
    /// run the other way.
    pub open spec fn line_positions(&self, column: int, row: int, d: Direction, color: TokenColor, p: WinningPositions) -> bool {
        let n = self.run_len(column, row, d, color);
        &&& p@[0] == cell_index(column, row)
        &&& forall|i: int| 1 <= i <= n ==> p@[i] == cell_index(step_pos(column, row, d, i).0, step_pos(column, row, d, i).1)
        &&& forall|i: int| n < i < 4 ==> p@[i] == cell_index(
            step_pos(column, row, d.spec_opposite(), i - n).0,
            step_pos(column, row, d.spec_opposite(), i - n).1,
        )
    }

    pub open spec fn wins(&self, column: int, row: int, color: TokenColor) -> bool {
        wins(self@, column, row, color)
    }

    pub open spec fn next_free_row(&self, column: int) -> Option<int> {
        next_free_row(self@, column)
    }

    /// An empty board.
    pub fn new() -> (r: Self)
        ensures
            r.wf(),
            forall|i: int| 0 <= i < BOARD_SLOTS ==> r@[i] is None,
    {
        let mut matrix: Vec<Option<TokenColor>> = Vec::new();
        let mut i: usize = 0;
        while i < BOARD_SLOTS
            invariant
                i <= BOARD_SLOTS,
                matrix@.len() == i,
                forall|j: int| 0 <= j < i ==> matrix@[j] is None,
            decreases BOARD_SLOTS - i,
        {
            matrix.push(None);
            i = i + 1;
        }
        Self { matrix }
    }

    pub fn calculate_index(&self, col: usize, row: usize) -> (r: usize)
        requires
            col < BOARD_COLUMNS,
            row < BOARD_ROWS,
        ensures
            r == cell_index(col as int, row as int),
            r < BOARD_SLOTS,
    {
        col * BOARD_ROWS + row
    }

    /// Places a token of `token_color`; returns the cell's index.
    pub fn set_cell(&mut self, token_color: TokenColor, column_number: usize, row_number: usize) -> (r: usize)
        requires
            old(self).wf(),
            column_number < BOARD_COLUMNS,
            row_number < BOARD_ROWS,
        ensures
            final(self).wf(),
            r == cell_index(column_number as int, row_number as int),
            final(self)@ == old(self)@.update(r as int, Some(token_color)),
    {
        let i = self.calculate_index(column_number, row_number);
        self.matrix.set(i, Some(token_color));
        i
    }

    /// The token at `(column, row)`.
    pub fn check_token(&self, column: usize, row: usize) -> (r: Option<TokenColor>)
        requires
            self.wf(),
            column < BOARD_COLUMNS,
            row < BOARD_ROWS,
        ensures
            r == self.cell(column as int, row as int),
    {
        self.matrix[self.calculate_index(column, row)]
    }

    /// Whether every cell holds a token.
    pub fn is_full(&self) -> (r: bool)
        requires
            self.wf(),
        ensures
            r == forall|i: int| 0 <= i < BOARD_SLOTS ==> self@[i] is Some,
    {
        let mut i: usize = 0;
        while i < BOARD_SLOTS
            invariant
                self.wf(),
                i <= BOARD_SLOTS,
                forall|j: int| 0 <= j < i ==> self@[j] is Some,
            decreases BOARD_SLOTS - i,
        {
            if self.matrix[i].is_none() {
                return false;
            }
            i = i + 1;
        }
        true
    }

    /// The lowest empty row of `column_number`, if any.
    pub fn get_next_free_row(&self, column_number: usize) -> (r: Option<usize>)
        requires
            self.wf(),
            column_number < BOARD_COLUMNS,
        ensures
            r matches Some(row) ==> row < BOARD_ROWS && cell_of(self@, column_number as int, row as int) is None
                && forall|q: int| 0 <= q < row ==> cell_of(self@, column_number as int, q) is Some,
            r is None ==> forall|q: int| 0 <= q < BOARD_ROWS ==> cell_of(self@, column_number as int, q) is Some,
            r matches Some(row) ==> self.next_free_row(column_number as int) == Some(row as int),
            r is None ==> self.next_free_row(column_number as int) is None,
    {
        let mut i: usize = 0;
        while i < BOARD_ROWS
            invariant
                self.wf(),
                column_number < BOARD_COLUMNS,
                i <= BOARD_ROWS,
                forall|q: int| 0 <= q < i ==> cell_of(self@, column_number as int, q) is Some,
            decreases BOARD_ROWS - i,
        {
            if self.check_token(column_number, i).is_none() {
                proof {
                    let c = column_number as int;
                    let s = self@;
                    assert(cell_of(s, c, i as int) is None);
                    assert(forall|q: int| 0 <= q < i ==> cell_of(s, c, q) is Some);
                    let pick = choose|r: int| 0 <= r < 6 && cell_of(s, c, r) is None
                        && forall|q: int| 0 <= q < r ==> cell_of(s, c, q) is Some;
                    assert(pick == i) by {
                        if pick < i {
                            assert(cell_of(s, c, pick) is Some);
                        } else if pick > i {
                            assert(cell_of(s, c, i as int) is Some);
                        }
                    }
                }
                return Some(i);
            }
            i = i + 1;
        }
        assert(!exists|r: int| 0 <= r < 6 && cell_of(self@, column_number as int, r) is None);
        None
    }

    /// The cell one step from `(current_column, current_row)` in `direction`,
    /// if it is on the board.
    pub fn move_index_in_direction(&self, current_column: usize, current_row: usize, direction: &Direction) -> (r: Option<(usize, usize)>)
        requires
            in_board(current_column as int, current_row as int),
        ensures
            ({
                let p = step_pos(current_column as int, current_row as int, *direction, 1);
                &&& in_board(p.0, p.1) ==> r == Some((p.0 as usize, p.1 as usize))
                &&& !in_board(p.0, p.1) ==> r is None
            }),
    {
        let is_bottom = current_row == 0;
        let is_top = current_row == BOARD_ROWS - 1;
        let is_left = current_column == 0;
        let is_right = current_column == BOARD_COLUMNS - 1;
        match direction {
            Direction::North => {
                if is_top { None } else { Some((current_column, current_row + 1)) }
            },
            Direction::NorthEast => {
                if is_top || is_right { None } else { Some((current_column + 1, current_row + 1)) }
            },
            Direction::East => {
                if is_right { None } else { Some((current_column + 1, current_row)) }
            },
            Direction::SouthEast => {
                if is_bottom || is_right { None } else { Some((current_column + 1, current_row - 1)) }
            },
            Direction::South => {
                if is_bottom { None } else { Some((current_column, current_row - 1)) }
            },
            Direction::SouthWest => {
                if is_bottom || is_left { None } else { Some((current_column - 1, current_row - 1)) }
            },
            Direction::West => {
                if is_left { None } else { Some((current_column - 1, current_row)) }
            },
            Direction::NorthWest => {
                if is_left || is_top { None } else { Some((current_column - 1, current_row + 1)) }
            },
        }
    }

    /// The token next to `(column, row)` in `direction`, if any.
    pub fn get_neighbour(&self, column: usize, row: usize, direction: &Direction) -> (r: Option<TokenColor>)
        requires
            self.wf(),
            in_board(column as int, row as int),
        ensures
            r == ({
                let p = step_pos(column as int, row as int, *direction, 1);
                self.cell(p.0, p.1)
            }),
    {
        match self.move_index_in_direction(column, row, direction) {
            Some((col, row)) => self.check_token(col, row),
            None => None,
        }
    }
    /// Up to three cells in a row from `(starting_column, starting_row)`
    /// along `direction` that hold `token_color`, the start excluded: their
    /// indices, and how many there are.
    pub fn get_connected_positions(&self, starting_column: usize, starting_row: usize, direction: &Direction, token_color: TokenColor) -> (r: ([usize; 3], usize))
        requires
            self.wf(),
            in_board(starting_column as int, starting_row as int),
        ensures
            r.1 == self.run_len(starting_column as int, starting_row as int, *direction, token_color),
            forall|i: int| 0 <= i < r.1 ==> r.0@[i] == cell_index(
                step_pos(starting_column as int, starting_row as int, *direction, i + 1).0,
                step_pos(starting_column as int, starting_row as int, *direction, i + 1).1,
            ),
    {
        let ghost c0 = starting_column as int;
        let ghost r0 = starting_row as int;
        let ghost d = *direction;
        let mut current_col = starting_column;
        let mut current_row = starting_row;
        let mut length: usize = 0;
        let mut token_positions: [usize; 3] = [0; 3];
        let mut done = false;
        while !done && length < 3
            invariant
                self.wf(),
                d == *direction,
                length <= 3,
                in_board(current_col as int, current_row as int),
                (current_col as int, current_row as int) == step_pos(c0, r0, d, length as int),
                forall|j: int| 1 <= j <= length ==> matches_at(self@, c0, r0, d, token_color, j),
                done ==> !matches_at(self@, c0, r0, d, token_color, length + 1),
                forall|i: int| 0 <= i < length ==> token_positions@[i] == cell_index(
                    step_pos(c0, r0, d, i + 1).0,
                    step_pos(c0, r0, d, i + 1).1,
                ),
            decreases 3 - length + if done { 0int } else { 1 },
        {
            proof {
                let dx = d.delta().0;
                let dy = d.delta().1;
                assert((length + 1) * dx == length * dx + dx) by (nonlinear_arith);
                assert((length + 1) * dy == length * dy + dy) by (nonlinear_arith);
                assert(step_pos(current_col as int, current_row as int, d, 1) == step_pos(c0, r0, d, length + 1));
            }
            match self.move_index_in_direction(current_col, current_row, direction) {
                Some((new_col, new_row)) => {
                    if self.check_token(new_col, new_row) == Some(token_color) {
                        let ghost before = token_positions@;
                        token_positions[length] = self.calculate_index(new_col, new_row);
                        length = length + 1;
                        current_col = new_col;
                        current_row = new_row;
                        assert forall|i: int| 0 <= i < length implies token_positions@[i] == cell_index(
                            step_pos(c0, r0, d, i + 1).0,
                            step_pos(c0, r0, d, i + 1).1,
                        ) by {
                            if i < length - 1 {
                                assert(token_positions@[i] == before[i]);
                            }
                        }
                    } else {
                        done = true;
                    }
                },
                None => {
                    done = true;
                },
            }
        }
        (token_positions, length)
    }

    /// The line of four through `(column, row)` along `direction`, both
    /// ways, that a token of `token_color` there would complete.
    pub fn get_connected_line(&self, direction: &Direction, token_color: TokenColor, column: usize, row: usize) -> (r: Option<WinningPositions>)
        requires
            self.wf(),
            in_board(column as int, row as int),
        ensures
            r is Some <==> self.line_exists(column as int, row as int, *direction, token_color),
            r matches Some(p) ==> self.line_positions(column as int, row as int, *direction, token_color, p),
    {
        let mut connected_positions: [usize; 4] = [0; 4];
        connected_positions[0] = self.calculate_index(column, row);
        let (positive_connections, positive_distance) = self.get_connected_positions(column, row, direction, token_color);
        let mut i: usize = 0;
        while i < positive_distance
            invariant
                positive_distance <= 3,
                i <= positive_distance,
                connected_positions@[0] == cell_index(column as int, row as int),
                forall|k: int| 0 <= k < i ==> connected_positions@[k + 1] == positive_connections@[k],
            decreases positive_distance - i,
        {
            connected_positions[i + 1] = positive_connections[i];
            i = i + 1;
        }
        let connected_length = 1 + positive_distance;
        proof {
            let n = positive_distance as int;
            assert forall|k: int| 1 <= k <= n implies connected_positions@[k] == cell_index(
                step_pos(column as int, row as int, *direction, k).0,
                step_pos(column as int, row as int, *direction, k).1,
            ) by {
                assert(connected_positions@[(k - 1) + 1] == positive_connections@[k - 1]);
            }
        }
        if connected_length == 4 {
            return Some(connected_positions);
        }
        let opposite_direction = direction.opposite();
        let (negative_connections, negative_distance) = self.get_connected_positions(column, row, &opposite_direction, token_color);
        if connected_length + negative_distance < 4 {
            return None;
        }
        let remaining_tokens = 4 - connected_length;
        let mut j: usize = 0;
        while j < remaining_tokens
            invariant
                positive_distance < 3,
                connected_length == 1 + positive_distance,
                remaining_tokens == 4 - connected_length,
                remaining_tokens <= negative_distance,
                j <= remaining_tokens,
                connected_positions@[0] == cell_index(column as int, row as int),
                forall|k: int| 0 <= k < positive_distance ==> connected_positions@[k + 1] == positive_connections@[k],
                forall|k: int| 0 <= k < j ==> connected_positions@[connected_length + k] == negative_connections@[k],
            decreases remaining_tokens - j,
        {
            connected_positions[connected_length + j] = negative_connections[j];
            j = j + 1;
        }
        proof {
            let n = positive_distance as int;
            assert forall|k: int| 1 <= k <= n implies connected_positions@[k] == cell_index(
                step_pos(column as int, row as int, *direction, k).0,
                step_pos(column as int, row as int, *direction, k).1,
            ) by {
                assert(connected_positions@[(k - 1) + 1] == positive_connections@[k - 1]);
            }
            assert forall|k: int| n < k < 4 implies connected_positions@[k] == cell_index(
                step_pos(column as int, row as int, opposite_direction, k - n).0,
                step_pos(column as int, row as int, opposite_direction, k - n).1,
            ) by {
                assert(connected_positions@[connected_length + (k - n - 1)] == negative_connections@[k - n - 1]);
            }
        }
        Some(connected_positions)
    }

    /// The first line of four, in the search order of directions, that a
    /// token of `token_color` at `(column, row)` would complete.
    pub fn get_winning_token_positions(&self, column: usize, row: usize, token_color: TokenColor) -> (r: Option<WinningPositions>)
        requires
            self.wf(),
            in_board(column as int, row as int),
        ensures
            r is Some <==> self.wins(column as int, row as int, token_color),
            r matches Some(p) ==> exists|k: int| 0 <= k < 8
                && self.line_exists(column as int, row as int, spec_direction(k), token_color)
                && (forall|j: int| 0 <= j < k ==> !self.line_exists(column as int, row as int, spec_direction(j), token_color))
                && self.line_positions(column as int, row as int, spec_direction(k), token_color, p),
    {
        let mut k: usize = 0;
        while k < 8
            invariant
                self.wf(),
                in_board(column as int, row as int),
                k <= 8,
                forall|j: int| 0 <= j < k ==> !self.line_exists(column as int, row as int, spec_direction(j), token_color),
            decreases 8 - k,
        {
            let d = direction_at(k);
            let line = self.get_connected_line(&d, token_color, column, row);
            if line.is_some() {
                return line;
            }
            k = k + 1;
        }
        None
    }

    /// Whether a token of `token_color` at `(column, row)` completes a line of four.
    pub fn is_winning_token(&self, column: usize, row: usize, token_color: TokenColor) -> (r: bool)
        requires
            self.wf(),
            in_board(column as int, row as int),
        ensures
            r == self.wins(column as int, row as int, token_color),
    {
        self.get_winning_token_positions(column, row, token_color).is_some()
    }

    /// Whether dropping a token of `token_color` into `column` wins.
    pub fn player_can_win(&self, column: usize, token_color: TokenColor) -> (r: bool)
        requires
            self.wf(),
            column < BOARD_COLUMNS,
        ensures
            r == can_win(self@, column as int, token_color),
    {
        match self.get_next_free_row(column) {
            Some(row) => self.is_winning_token(column, row, token_color),
            None => false,
        }
    }

    /// The board once a token of `token_color` is dropped into `column`;
    /// the same board when the column is full.
    pub fn get_board_after_move(&self, column: usize, token_color: TokenColor) -> (r: Self)
        requires
            self.wf(),
            column < BOARD_COLUMNS,
        ensures
            r.wf(),
            r@ == after_move(self@, column as int, token_color),
    {
        let mut new_matrix = self.matrix.clone();
        proof {
            assert(new_matrix@ =~= self.matrix@);
        }
        if let Some(row) = self.get_next_free_row(column) {
            let i = self.calculate_index(column, row);
            new_matrix.set(i, Some(token_color));
        }
        Self { matrix: new_matrix }
    }
}

} // verus!

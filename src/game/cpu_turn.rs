//! Pacing of the computer player's move, and its choice among the
//! best-scored columns.
use vstd::prelude::*;

use super::board::{after_move, can_win, cell_of, next_free_row, step_pos, GameBoard};
use super::cursor::Cursor;
use super::{direction_at, spec_direction, CpuEmotion, TokenColor, BOARD_COLUMNS};

verus! {

/// Frames the cursor waits between two column steps.
pub const MOVEMENT_DELAY: u32 = 6;

/// Weight of a neighbouring cell: 0 empty, 1 own token, 2 opponent's token.
pub open spec fn neighbour_weight(n: Option<TokenColor>, color: TokenColor) -> int {
    match n {
        None => 0,
        Some(c) => if c == color { 1 } else { 2 },
    }
}

/// Sum of the weights of the neighbours of `(column, row)` in the first
/// `k` directions of the search order.
pub open spec fn heuristic(s: Seq<Option<TokenColor>>, column: int, row: int, color: TokenColor, k: nat) -> int
    decreases k,
{
    if k == 0 {
        0
    } else {
        let p = step_pos(column, row, spec_direction(k - 1), 1);
        heuristic(s, column, row, color, (k - 1) as nat) + neighbour_weight(cell_of(s, p.0, p.1), color)
    }
}

/// Some column lets `color` win with its next token.
pub open spec fn has_winning_move(s: Seq<Option<TokenColor>>, color: TokenColor) -> bool {
    exists|c: int| 0 <= c < 7 && can_win(s, c, color)
}

/// The computer's score for dropping a token of `color` into `column`:
/// full columns score lowest, then moves that hand the opponent a win;
/// winning scores highest, then blocking the opponent's win, then setting
/// up a win; otherwise the sum of the neighbour weights.
pub open spec fn column_score(s: Seq<Option<TokenColor>>, color: TokenColor, column: int) -> int {
    match next_free_row(s, column) {
        None => i32::MIN as int,
        Some(row) => if can_win(s, column, color) {
            i32::MAX as int
        } else if can_win(s, column, color.spec_opposite()) {
            i32::MAX - 1
        } else if has_winning_move(after_move(s, column, color), color.spec_opposite()) {
            i32::MIN + 1
        } else if has_winning_move(after_move(s, column, color), color) {
            i32::MAX - 2
        } else {
            heuristic(s, column, row, color, 8)
        },
    }
}

/// The face the computer makes on scoring `column`: happy at a winning
/// move, surprised at a block.
pub open spec fn score_emotion(s: Seq<Option<TokenColor>>, color: TokenColor, column: int) -> Option<CpuEmotion> {
    if next_free_row(s, column) is None {
        None
    } else if can_win(s, column, color) {
        Some(CpuEmotion::Happy)
    } else if can_win(s, column, color.spec_opposite()) {
        Some(CpuEmotion::Surprised)
    } else {
        None
    }
}

/// The highest of the scores, or `i32::MIN` for none.
pub open spec fn max_of(s: Seq<i32>) -> int
    decreases s.len(),
{
    if s.len() == 0 {
        i32::MIN as int
    } else {
        let m = max_of(s.drop_last());
        if s.last() as int > m { s.last() as int } else { m }
    }
}

/// The indices below `n`, in increasing order, whose score is `v`.
pub open spec fn indices_of(s: Seq<i32>, v: int, n: nat) -> Seq<usize>
    decreases n,
{
    if n == 0 {
        Seq::empty()
    } else {
        indices_of(s, v, (n - 1) as nat) + if s[n - 1] as int == v { seq![(n - 1) as usize] } else { Seq::empty() }
    }
}

proof fn lemma_max_of_bounds(s: Seq<i32>)
    ensures
        forall|i: int| 0 <= i < s.len() ==> s[i] as int <= max_of(s),
        s.len() > 0 ==> exists|i: int| 0 <= i < s.len() && s[i] as int == max_of(s),
        i32::MIN <= max_of(s) <= i32::MAX,
    decreases s.len(),
{
    if s.len() > 0 {
        lemma_max_of_bounds(s.drop_last());
        assert forall|i: int| 0 <= i < s.len() implies s[i] as int <= max_of(s) by {
            if i < s.len() - 1 {
                assert(s.drop_last()[i] == s[i]);
            }
        }
        if s.last() as int <= max_of(s.drop_last()) && s.len() > 1 {
            let i = choose|i: int| 0 <= i < s.drop_last().len() && s.drop_last()[i] as int == max_of(s.drop_last());
            assert(s[i] == s.drop_last()[i]);
        }
    }
}

proof fn lemma_indices_of_nonempty(s: Seq<i32>, v: int, n: nat, i: int)
    requires
        0 <= i < n <= s.len(),
        s[i] as int == v,
    ensures
        indices_of(s, v, n).len() > 0,
    decreases n,
{
    if i < n - 1 {
        lemma_indices_of_nonempty(s, v, (n - 1) as nat, i);
    }
}

/// The computer player while it scores the columns one per frame.
#[derive(Debug)]
pub struct DecidingState {
    col_scores: Vec<i32>,
}

impl DecidingState {
    /// The scores of the columns scored so far, from the first column.
    pub closed spec fn view(&self) -> Seq<i32> {
        self.col_scores@
    }

    pub fn new() -> (r: Self)
        ensures
            r@ == Seq::<i32>::empty(),
    {
        Self { col_scores: Vec::new() }
    }

    /// Number of columns scored so far.
    pub fn scored_columns(&self) -> (r: usize)
        ensures
            r == self@.len(),
    {
        self.col_scores.len()
    }

    /// Records the score of the next column.
    pub fn record_score(&mut self, score: i32)
        requires
            old(self)@.len() < BOARD_COLUMNS,
        ensures
            final(self)@ == old(self)@.push(score),
    {
        self.col_scores.push(score);
    }

    /// Whether `token_color` can win with its next token somewhere.
    fn player_has_winning_move(&self, game_board: &GameBoard, token_color: TokenColor) -> (r: bool)
        requires
            game_board.wf(),
        ensures
            r == has_winning_move(game_board@, token_color),
    {
        let mut column: usize = 0;
        while column < BOARD_COLUMNS
            invariant
                game_board.wf(),
                column <= BOARD_COLUMNS,
                forall|c: int| 0 <= c < column ==> !can_win(game_board@, c, token_color),
            decreases BOARD_COLUMNS - column,
        {
            if game_board.player_can_win(column, token_color) {
                return true;
            }
            column = column + 1;
        }
        false
    }

    /// The score of `column_number`, with the face it calls for.
    fn score_column(&self, token_color: TokenColor, game_board: &GameBoard, column_number: usize) -> (r: (i32, Option<CpuEmotion>))
        requires
            game_board.wf(),
            column_number < BOARD_COLUMNS,
        ensures
            r.0 as int == column_score(game_board@, token_color, column_number as int),
            r.1 == score_emotion(game_board@, token_color, column_number as int),
    {
        let row = match game_board.get_next_free_row(column_number) {
            None => return (i32::MIN, None),
            Some(row) => row,
        };
        let opponent_color = token_color.opposite();
        let candidate_board = game_board.get_board_after_move(column_number, token_color);
        if game_board.player_can_win(column_number, token_color) {
            return (i32::MAX, Some(CpuEmotion::Happy));
        }
        if game_board.player_can_win(column_number, opponent_color) {
            return (i32::MAX - 1, Some(CpuEmotion::Surprised));
        }
        if self.player_has_winning_move(&candidate_board, opponent_color) {
            return (i32::MIN + 1, None);
        }
        if self.player_has_winning_move(&candidate_board, token_color) {
            return (i32::MAX - 2, None);
        }
        let mut score: i32 = 0;
        let mut k: usize = 0;
        while k < 8
            invariant
                game_board.wf(),
                column_number < BOARD_COLUMNS,
                row < 6,
                k <= 8,
                score as int == heuristic(game_board@, column_number as int, row as int, token_color, k as nat),
                0 <= score <= 2 * k,
            decreases 8 - k,
        {
            let direction = direction_at(k);
            let weight: i32 = match game_board.get_neighbour(column_number, row, &direction) {
                None => 0,
                Some(color) => if color == token_color { 1 } else { 2 },
            };
            score = score + weight;
            k = k + 1;
        }
        (score, None)
    }

    /// Scores the next unscored column; returns the face the score calls for.
    pub fn score_next_column(&mut self, token_color: TokenColor, game_board: &GameBoard) -> (r: Option<CpuEmotion>)
        requires
            game_board.wf(),
            old(self)@.len() < BOARD_COLUMNS,
        ensures
            final(self)@ == old(self)@.push(column_score(game_board@, token_color, old(self)@.len() as int) as i32),
            r == score_emotion(game_board@, token_color, old(self)@.len() as int),
    {
        let column = self.col_scores.len();
        let (score, emotion) = self.score_column(token_color, game_board, column);
        self.col_scores.push(score);
        emotion
    }

    /// Once every column is scored, the column of the best score; where
    /// several columns share it, the one of them at position
    /// `random % count` in increasing order. `None` while columns remain.
    pub fn get_best_column(&self, random: u32) -> (r: Option<usize>)
        requires
            self@.len() <= BOARD_COLUMNS,
        ensures
            self@.len() < BOARD_COLUMNS ==> r is None,
            self@.len() == BOARD_COLUMNS ==> {
                let best = indices_of(self@, max_of(self@), BOARD_COLUMNS as nat);
                &&& best.len() > 0
                &&& r == Some(best[(random as int) % (best.len() as int)])
                &&& r->0 < BOARD_COLUMNS
                &&& self@[r->0 as int] as int == max_of(self@)
            },
    {
        if self.col_scores.len() < BOARD_COLUMNS {
            return None;
        }
        let ghost s = self@;
        let mut best_score: i32 = i32::MIN;
        let mut i: usize = 0;
        while i < BOARD_COLUMNS
            invariant
                s == self@,
                s.len() == BOARD_COLUMNS,
                i <= BOARD_COLUMNS,
                best_score as int == max_of(s.subrange(0, i as int)),
            decreases BOARD_COLUMNS - i,
        {
            assert(s.subrange(0, i as int + 1).drop_last() =~= s.subrange(0, i as int));
            if self.col_scores[i] > best_score {
                best_score = self.col_scores[i];
            }
            i = i + 1;
        }
        assert(s.subrange(0, BOARD_COLUMNS as int) =~= s);
        let mut candidates: Vec<usize> = Vec::new();
        let mut j: usize = 0;
        while j < BOARD_COLUMNS
            invariant
                s == self@,
                s.len() == BOARD_COLUMNS,
                j <= BOARD_COLUMNS,
                best_score as int == max_of(s),
                candidates@ == indices_of(s, best_score as int, j as nat),
            decreases BOARD_COLUMNS - j,
        {
            if self.col_scores[j] == best_score {
                candidates.push(j);
            } else {
                assert(candidates@ =~= candidates@ + Seq::<usize>::empty());
            }
            j = j + 1;
        }
        proof {
            lemma_max_of_bounds(s);
            let k = choose|k: int| 0 <= k < s.len() && s[k] as int == max_of(s);
            lemma_indices_of_nonempty(s, max_of(s), BOARD_COLUMNS as nat, k);
            lemma_indices_are_best(s, max_of(s), BOARD_COLUMNS as nat);
        }
        let pick = (random as usize) % candidates.len();
        Some(candidates[pick])
    }
}

proof fn lemma_indices_are_best(s: Seq<i32>, v: int, n: nat)
    requires
        n <= s.len(),
        n <= usize::MAX,
    ensures
        forall|k: int| 0 <= k < indices_of(s, v, n).len() ==> {
            &&& (#[trigger] indices_of(s, v, n)[k]) < n
            &&& s[indices_of(s, v, n)[k] as int] as int == v
        },
    decreases n,
{
    if n > 0 {
        let prev = indices_of(s, v, (n - 1) as nat);
        lemma_indices_are_best(s, v, (n - 1) as nat);
        assert forall|k: int| 0 <= k < indices_of(s, v, n).len() implies {
            &&& (#[trigger] indices_of(s, v, n)[k]) < n
            &&& s[indices_of(s, v, n)[k] as int] as int == v
        } by {
            if k < prev.len() {
                assert(indices_of(s, v, n)[k] == prev[k]);
            } else {
                assert(indices_of(s, v, n)[k] == (n - 1) as usize);
            }
        }
    }
}

/// The computer player while its cursor travels to the chosen column.
#[derive(Clone, Copy, Debug, PartialEq, Eq, Structural)]
pub struct MovingState {
    target_column: usize,
    move_delay_timer: u32,
}

impl MovingState {
    pub closed spec fn spec_target(&self) -> usize {
        self.target_column
    }

    /// Frames left before the next column step.
    pub closed spec fn spec_timer(&self) -> u32 {
        self.move_delay_timer
    }

    pub closed spec fn wf(&self) -> bool {
        &&& self.target_column < BOARD_COLUMNS
        &&& 1 <= self.move_delay_timer <= MOVEMENT_DELAY
    }

    pub fn new(target_column: usize) -> (r: Self)
        requires
            target_column < BOARD_COLUMNS,
        ensures
            r.wf(),
            r.spec_target() == target_column,
            r.spec_timer() == MOVEMENT_DELAY,
    {
        Self { target_column, move_delay_timer: MOVEMENT_DELAY }
    }

    /// Counts down one frame; at zero restarts the count and reports that a
    /// step is due.
    fn update_timer(&mut self) -> (due: bool)
        requires
            old(self).wf(),
        ensures
            final(self).wf(),
            final(self).spec_target() == old(self).spec_target(),
            due == (old(self).spec_timer() == 1),
            final(self).spec_timer() == if due { MOVEMENT_DELAY } else { (old(self).spec_timer() - 1) as u32 },
    {
        self.move_delay_timer = self.move_delay_timer - 1;
        if self.move_delay_timer == 0 {
            self.move_delay_timer = MOVEMENT_DELAY;
            true
        } else {
            false
        }
    }

    /// Advances the cursor one frame. Once it rests and a step is due, it
    /// moves one column towards the target; returns true when a due step
    /// finds it already over the target.
    pub fn update(&mut self, cursor: &mut Cursor) -> (arrived: bool)
        requires
            old(self).wf(),
            old(cursor).wf(),
        ensures
            final(self).wf(),
            final(cursor).wf(),
            final(self).spec_target() == old(self).spec_target(),
            arrived ==> final(cursor).spec_column() == old(self).spec_target() && !final(cursor).spec_moving(),
    {
        cursor.update_movement();
        if !cursor.is_moving() && self.update_timer() {
            let column = cursor.get_column();
            if column > self.target_column {
                cursor.move_left();
            } else if column < self.target_column {
                cursor.move_right();
            } else {
                return true;
            }
        }
        false
    }
}


/// The computer player's turn: it scores one column per frame, picks a best
/// column, then walks the cursor there.
pub struct CpuTurn {
    deciding: DecidingState,
    moving: Option<MovingState>,
    cursor: Cursor,
}

/// What a frame of a turn produced: the column played, if the turn ended,
/// and a face to show, if any.
#[derive(Clone, Copy, Debug, PartialEq, Eq, Structural)]
pub struct TurnOutput {
    pub column: Option<usize>,
    pub emotion: Option<CpuEmotion>,
}

impl CpuTurn {
    /// Scores recorded while deciding.
    pub closed spec fn spec_scores(&self) -> Seq<i32> {
        self.deciding@
    }

    /// The walk towards the chosen column, once chosen.
    pub closed spec fn spec_moving(&self) -> Option<MovingState> {
        self.moving
    }

    pub closed spec fn spec_cursor(&self) -> Cursor {
        self.cursor
    }

    pub closed spec fn wf(&self) -> bool {
        &&& self.deciding@.len() <= BOARD_COLUMNS
        &&& self.cursor.wf()
        &&& self.moving matches Some(m) ==> m.wf()
    }

    pub fn new(layout: super::BoardLayout) -> (r: Self)
        requires
            layout.wf(),
        ensures
            r.wf(),
            r.spec_scores() == Seq::<i32>::empty(),
            r.spec_moving() is None,
            r.spec_cursor().spec_column() == 0,
            !r.spec_cursor().spec_moving(),
    {
        Self { deciding: DecidingState::new(), moving: None, cursor: Cursor::new(layout) }
    }

    fn reset(&mut self)
        requires
            old(self).wf(),
        ensures
            final(self).wf(),
            final(self).spec_scores() == Seq::<i32>::empty(),
            final(self).spec_moving() is None,
            final(self).spec_cursor().spec_column() == 0,
    {
        let layout = self.cursor.layout();
        self.deciding = DecidingState::new();
        self.moving = None;
        self.cursor = Cursor::new(layout);
    }

    /// The cursor, to be drawn.
    pub fn cursor(&self) -> (r: &Cursor)
        ensures
            *r == self.spec_cursor(),
    {
        &self.cursor
    }

    /// One frame of the computer's turn, `random` being a fresh random
    /// number. While deciding, scores the next column (with the face the
    /// score calls for) or, with all scored, starts walking to the best
    /// column. While walking, plays the column on arriving: the face turns
    /// neutral unless the move wins, and the turn starts over. A column
    /// found full on arrival is not played and the turn starts over.
    pub fn update(&mut self, token_color: TokenColor, game_board: &GameBoard, random: u32) -> (r: TurnOutput)
        requires
            old(self).wf(),
            game_board.wf(),
        ensures
            final(self).wf(),
            old(self).spec_moving() is None && old(self).spec_scores().len() < BOARD_COLUMNS ==> {
                &&& r.column is None
                &&& r.emotion == score_emotion(game_board@, token_color, old(self).spec_scores().len() as int)
                &&& final(self).spec_scores() == old(self).spec_scores().push(
                    column_score(game_board@, token_color, old(self).spec_scores().len() as int) as i32)
                &&& final(self).spec_moving() is None
            },
            old(self).spec_moving() is None && old(self).spec_scores().len() == BOARD_COLUMNS ==> {
                let best = indices_of(old(self).spec_scores(), max_of(old(self).spec_scores()), BOARD_COLUMNS as nat);
                &&& r == (TurnOutput { column: None, emotion: None })
                &&& final(self).spec_moving() matches Some(m) && m.spec_target() == best[(random as int) % (best.len() as int)]
            },
            r.column matches Some(c) ==> {
                &&& old(self).spec_moving() matches Some(m) && c == m.spec_target()
                &&& next_free_row(game_board@, c as int) is Some
                &&& final(self).spec_scores() == Seq::<i32>::empty()
                &&& final(self).spec_moving() is None
            },
    {
        match self.moving {
            None => {
                if self.deciding.scored_columns() == BOARD_COLUMNS {
                    match self.deciding.get_best_column(random) {
                        Some(best) => {
                            self.moving = Some(MovingState::new(best));
                        },
                        None => {},
                    }
                    TurnOutput { column: None, emotion: None }
                } else {
                    let emotion = self.deciding.score_next_column(token_color, game_board);
                    TurnOutput { column: None, emotion }
                }
            },
            Some(m) => {
                let mut m = m;
                let arrived = m.update(&mut self.cursor);
                self.moving = Some(m);
                if arrived {
                    let column = self.cursor.get_column();
                    match game_board.get_next_free_row(column) {
                        Some(row) => {
                            let emotion = if !game_board.is_winning_token(column, row, token_color) {
                                Some(CpuEmotion::Neutral)
                            } else {
                                None
                            };
                            self.reset();
                            TurnOutput { column: Some(column), emotion }
                        },
                        None => {
                            self.reset();
                            TurnOutput { column: None, emotion: None }
                        },
                    }
                } else {
                    TurnOutput { column: None, emotion: None }
                }
            },
        }
    }
}

} // verus!

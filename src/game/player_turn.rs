//! The human player's turn: the cursor follows the keys and A drops a token.
use vstd::prelude::*;

use super::board::{next_free_row, wins, GameBoard};
use super::cpu_turn::TurnOutput;
use super::cursor::Cursor;
use super::{BoardLayout, CpuEmotion, TokenColor};
use crate::input::{held_in, GbaKey, InputState};

verus! {

/// `key` went down at the latest latch of `input`.
pub open spec fn pressed(input: InputState, key: GbaKey) -> bool {
    held_in(key, input.spec_current()) && !held_in(key, input.spec_previous())
}

pub struct PlayerTurn {
    cursor: Cursor,
}

impl PlayerTurn {
    pub closed spec fn spec_cursor(&self) -> Cursor {
        self.cursor
    }

    pub closed spec fn wf(&self) -> bool {
        self.cursor.wf()
    }

    pub fn new(layout: BoardLayout) -> (r: Self)
        requires
            layout.wf(),
        ensures
            r.wf(),
            r.spec_cursor().spec_column() == 0,
            !r.spec_cursor().spec_moving(),
    {
        Self { cursor: Cursor::new(layout) }
    }

    /// The cursor, to be drawn.
    pub fn cursor(&self) -> (r: &Cursor)
        ensures
            *r == self.spec_cursor(),
    {
        &self.cursor
    }

    /// One frame of the player's turn. A moving cursor keeps moving; else
    /// left or right moves it one column; else A plays the cursor's column
    /// if it has room, making the opponent's face mad when the token blocks
    /// a win of the opponent, and the turn starts over.
    pub fn update(&mut self, input: &InputState, token_color: TokenColor, game_board: &GameBoard) -> (r: TurnOutput)
        requires
            old(self).wf(),
            game_board.wf(),
        ensures
            final(self).wf(),
            r.column matches Some(c) ==> {
                &&& !old(self).spec_cursor().spec_moving()
                &&& pressed(*input, GbaKey::A) && !pressed(*input, GbaKey::LEFT) && !pressed(*input, GbaKey::RIGHT)
                &&& c == old(self).spec_cursor().spec_column()
                &&& next_free_row(game_board@, c as int) matches Some(row)
                    && r.emotion == if wins(game_board@, c as int, row, token_color.spec_opposite()) { Some(CpuEmotion::Mad) } else { None }
                &&& final(self).spec_cursor().spec_column() == 0
            },
            r.column is None ==> r.emotion is None,
            !old(self).spec_cursor().spec_moving() && pressed(*input, GbaKey::A) && !pressed(*input, GbaKey::LEFT) && !pressed(*input, GbaKey::RIGHT)
                && next_free_row(game_board@, old(self).spec_cursor().spec_column() as int) is Some ==> r.column is Some,
    {
        if self.cursor.is_moving() {
            self.cursor.update_movement();
        } else if input.key_was_pressed(GbaKey::LEFT) {
            self.cursor.move_left();
        } else if input.key_was_pressed(GbaKey::RIGHT) {
            self.cursor.move_right();
        } else if input.key_was_pressed(GbaKey::A) {
            let col = self.cursor.get_column();
            if let Some(row) = game_board.get_next_free_row(col) {
                let emotion = if game_board.is_winning_token(col, row, token_color.opposite()) {
                    Some(CpuEmotion::Mad)
                } else {
                    None
                };
                let layout = self.cursor.layout();
                self.cursor = Cursor::new(layout);
                return TurnOutput { column: Some(col), emotion };
            }
        }
        TurnOutput { column: None, emotion: None }
    }
}

} // verus!

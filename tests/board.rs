use gba_runtime::game::board::GameBoard;
use gba_runtime::game::cpu_turn::{CpuTurn, DecidingState};
use gba_runtime::game::player_turn::PlayerTurn;
use gba_runtime::input::{update_input, GbaKey, InputState};
use gba_runtime::game::{direction_at, BoardLayout, CpuEmotion, Direction, TokenColor};

fn layout() -> BoardLayout {
    BoardLayout { slot_width: 16, slot_height: 16, token_width: 12, token_height: 16 }
}

fn drop_token(b: &mut GameBoard, col: usize, color: TokenColor) -> usize {
    let row = b.get_next_free_row(col).unwrap();
    b.set_cell(color, col, row);
    row
}

#[test]
fn board_rows_fill_from_bottom() {
    let mut b = GameBoard::new();
    assert_eq!(b.get_next_free_row(3), Some(0));
    assert_eq!(b.set_cell(TokenColor::Red, 3, 0), 18);
    assert_eq!(b.get_next_free_row(3), Some(1));
    for _ in 0..5 {
        drop_token(&mut b, 3, TokenColor::Yellow);
    }
    assert_eq!(b.get_next_free_row(3), None);
    assert!(!b.player_can_win(3, TokenColor::Red));
    assert!(!b.is_full());
    assert_eq!(b.check_token(3, 0), Some(TokenColor::Red));
    assert_eq!(b.calculate_index(6, 5), 41);
}

#[test]
fn board_full() {
    let mut b = GameBoard::new();
    for col in 0..7 {
        for row in 0..6 {
            b.set_cell(if (col + row) % 2 == 0 { TokenColor::Red } else { TokenColor::Yellow }, col, row);
        }
    }
    assert!(b.is_full());
}

#[test]
fn board_neighbours_and_edges() {
    let mut b = GameBoard::new();
    b.set_cell(TokenColor::Red, 1, 1);
    assert_eq!(b.get_neighbour(0, 0, &Direction::NorthEast), Some(TokenColor::Red));
    assert_eq!(b.get_neighbour(1, 0, &Direction::North), Some(TokenColor::Red));
    assert_eq!(b.get_neighbour(0, 0, &Direction::South), None);
    assert_eq!(b.move_index_in_direction(0, 0, &Direction::West), None);
    assert_eq!(b.move_index_in_direction(6, 5, &Direction::NorthEast), None);
    assert_eq!(b.move_index_in_direction(6, 5, &Direction::SouthWest), Some((5, 4)));
    assert_eq!(direction_at(4), Direction::NorthEast);
}

#[test]
fn board_horizontal_win_positions() {
    let mut b = GameBoard::new();
    b.set_cell(TokenColor::Red, 0, 0);
    b.set_cell(TokenColor::Red, 1, 0);
    b.set_cell(TokenColor::Red, 3, 0);
    // Red at column 2, row 0 closes 0..=3: East run is 1 (column 3), West run 2.
    let line = b.get_winning_token_positions(2, 0, TokenColor::Red).unwrap();
    assert_eq!(line, [12, 18, 6, 0]);
    assert!(b.is_winning_token(2, 0, TokenColor::Red));
    assert!(!b.is_winning_token(2, 0, TokenColor::Yellow));
    assert!(b.player_can_win(2, TokenColor::Red));
    assert!(!b.player_can_win(4, TokenColor::Red));
    let (positions, len) = b.get_connected_positions(2, 0, &Direction::West, TokenColor::Red);
    assert_eq!(len, 2);
    assert_eq!(&positions[..2], &[6, 0]);
    assert_eq!(b.get_connected_line(&Direction::North, TokenColor::Red, 2, 0), None);
}

#[test]
fn board_vertical_and_diagonal_wins() {
    let mut b = GameBoard::new();
    for _ in 0..3 {
        drop_token(&mut b, 5, TokenColor::Yellow);
    }
    assert!(b.player_can_win(5, TokenColor::Yellow));
    let line = b.get_winning_token_positions(5, 3, TokenColor::Yellow).unwrap();
    assert_eq!(line, [33, 32, 31, 30]);
    let mut d = GameBoard::new();
    d.set_cell(TokenColor::Red, 0, 0);
    d.set_cell(TokenColor::Red, 1, 1);
    d.set_cell(TokenColor::Red, 2, 2);
    assert!(d.is_winning_token(3, 3, TokenColor::Red));
    let after = d.get_board_after_move(4, TokenColor::Yellow);
    assert_eq!(after.check_token(4, 0), Some(TokenColor::Yellow));
    assert_eq!(d.check_token(4, 0), None);
}

#[test]
fn cpu_scores_columns() {
    let mut b = GameBoard::new();
    for _ in 0..3 {
        drop_token(&mut b, 0, TokenColor::Yellow);
    }
    // Red to move: column 0 blocks Yellow's vertical four.
    let mut d = DecidingState::new();
    assert_eq!(d.score_next_column(TokenColor::Red, &b), Some(CpuEmotion::Surprised));
    assert_eq!(d.score_next_column(TokenColor::Red, &b), None);
    // Yellow to move: column 0 wins.
    let mut y = DecidingState::new();
    assert_eq!(y.score_next_column(TokenColor::Yellow, &b), Some(CpuEmotion::Happy));
    for _ in 1..7 {
        y.score_next_column(TokenColor::Yellow, &b);
    }
    assert_eq!(y.get_best_column(12345), Some(0));
}

#[test]
fn cpu_score_values() {
    let mut full = GameBoard::new();
    for _ in 0..6 {
        drop_token(&mut full, 0, TokenColor::Red);
    }
    let mut d = DecidingState::new();
    d.score_next_column(TokenColor::Red, &full);
    d.score_next_column(TokenColor::Red, &full);
    // Column 0 is full; column 1 neighbours Red at (0,0) to the West: weight 1.
    let mut e = GameBoard::new();
    e.set_cell(TokenColor::Yellow, 0, 0);
    let mut s = DecidingState::new();
    s.score_next_column(TokenColor::Red, &e);
    s.score_next_column(TokenColor::Red, &e);
    for _ in 2..7 {
        s.score_next_column(TokenColor::Red, &e);
    }
    // Column 0 (row 1) has Yellow below: 2. Column 1 (row 0) has Yellow to the West: 2.
    assert_eq!(s.get_best_column(0), Some(0));
    assert_eq!(s.get_best_column(1), Some(1));
    assert_eq!(d.scored_columns(), 2);
}

#[test]
fn cpu_turn_plays_a_column() {
    let mut b = GameBoard::new();
    for _ in 0..3 {
        drop_token(&mut b, 4, TokenColor::Red);
    }
    let mut turn = CpuTurn::new(layout());
    let mut played = None;
    let mut emotions = Vec::new();
    for frame in 0..500u32 {
        let out = turn.update(TokenColor::Red, &b, frame);
        if let Some(e) = out.emotion {
            emotions.push(e);
        }
        if out.column.is_some() {
            played = out.column;
            break;
        }
    }
    assert_eq!(played, Some(4));
    assert_eq!(emotions, vec![CpuEmotion::Happy]);
    assert_eq!(turn.cursor().get_column(), 0);
}

#[test]
fn player_turn_moves_and_drops() {
    let mut b = GameBoard::new();
    for _ in 0..3 {
        drop_token(&mut b, 0, TokenColor::Yellow);
    }
    let mut turn = PlayerTurn::new(layout());
    let mut input = InputState::new();
    let frame = |input: &mut InputState, held: u16| {
        update_input(input, 0);
        update_input(input, held);
    };
    frame(&mut input, GbaKey::RIGHT.mask());
    let out = turn.update(&input, TokenColor::Red, &b);
    assert_eq!(out.column, None);
    assert_eq!(turn.cursor().get_column(), 1);
    frame(&mut input, 0);
    while turn.cursor().is_moving() {
        turn.update(&input, TokenColor::Red, &b);
    }
    frame(&mut input, GbaKey::LEFT.mask());
    turn.update(&input, TokenColor::Red, &b);
    frame(&mut input, 0);
    while turn.cursor().is_moving() {
        turn.update(&input, TokenColor::Red, &b);
    }
    // A held since the previous latch is no new press.
    update_input(&mut input, GbaKey::A.mask());
    update_input(&mut input, GbaKey::A.mask());
    assert_eq!(turn.update(&input, TokenColor::Red, &b).column, None);
    frame(&mut input, GbaKey::A.mask());
    let out = turn.update(&input, TokenColor::Red, &b);
    assert_eq!(out.column, Some(0));
    assert_eq!(out.emotion, Some(CpuEmotion::Mad));
}

use gba_runtime::game::cpu_turn::{DecidingState, MovingState};
use gba_runtime::game::cursor::Cursor;
use gba_runtime::game::{
    board_top_left_corner, get_token_x_position, get_token_y_position, BoardLayout, CursorPosition, Direction,
    TokenColor,
};

fn layout() -> BoardLayout {
    BoardLayout { slot_width: 16, slot_height: 16, token_width: 12, token_height: 16 }
}

#[test]
fn board_positions() {
    let l = layout();
    assert_eq!(board_top_left_corner(&l), (64, 64));
    assert_eq!(get_token_x_position(&l, 0), 66);
    assert_eq!(get_token_x_position(&l, 6), 64 + 96 + 2);
    assert_eq!(get_token_y_position(&l), 24);
}

#[test]
fn opposites() {
    assert_eq!(TokenColor::Red.opposite(), TokenColor::Yellow);
    assert_eq!(TokenColor::Yellow.opposite(), TokenColor::Red);
    assert_eq!(Direction::NorthEast.opposite(), Direction::SouthWest);
    assert_eq!(Direction::West.opposite(), Direction::East);
    assert_eq!(CursorPosition::Quit.next(), CursorPosition::Rematch);
    assert_eq!(CursorPosition::Rematch.next(), CursorPosition::Quit);
}

#[test]
fn cursor_moves_and_wraps() {
    let mut c = Cursor::new(layout());
    assert_eq!((c.get_column(), c.x_position(), c.is_moving()), (0, 66, false));
    c.move_right();
    assert!(c.is_moving());
    assert_eq!(c.get_column(), 1);
    c.update_movement();
    assert_eq!(c.x_position(), 71);
    for _ in 0..3 {
        c.update_movement();
    }
    assert_eq!(c.x_position(), 82);
    assert!(!c.is_moving());
    c.move_left();
    c.move_left();
    assert_eq!(c.get_column(), 6);
    c.move_right();
    assert_eq!(c.get_column(), 0);
}

#[test]
fn cpu_picks_among_best_columns() {
    let mut d = DecidingState::new();
    for score in [1, 5, 3, 5, 2, 0] {
        d.record_score(score);
    }
    assert_eq!(d.get_best_column(0), None);
    d.record_score(5);
    assert_eq!(d.scored_columns(), 7);
    assert_eq!(d.get_best_column(0), Some(1));
    assert_eq!(d.get_best_column(4), Some(3));
    assert_eq!(d.get_best_column(2), Some(6));
}

#[test]
fn cpu_cursor_reaches_target() {
    let mut cursor = Cursor::new(layout());
    let mut m = MovingState::new(2);
    let mut frames = 0;
    while !m.update(&mut cursor) {
        frames += 1;
        assert!(frames < 200);
    }
    assert_eq!(cursor.get_column(), 2);
    assert!(!cursor.is_moving());
}

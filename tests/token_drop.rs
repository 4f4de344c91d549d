use gba_runtime::assets::tiles::Tile4;
use gba_runtime::game::token_drop::{DropEvent, TokenDroppingState};
use gba_runtime::game::TokenColor;
use gba_runtime::graphics::sprite::{Animation, AnimationController, Sprite};
use gba_runtime::memory::shadow_oam::ObjShape;

#[test]
fn token_falls_bounces_and_lands() {
    let mut t = TokenDroppingState::new(TokenColor::Red, 2, 0, 24, 144);
    assert_eq!(t.cell(), (TokenColor::Red, 2, 0));
    let mut events = Vec::new();
    let mut ys = Vec::new();
    for _ in 0..200 {
        let e = t.update();
        ys.push(t.current_y());
        events.push(e);
        if e == DropEvent::Landed {
            break;
        }
    }
    assert_eq!(events.last(), Some(&DropEvent::Landed));
    assert!(events.contains(&DropEvent::Bounced));
    assert!(ys.iter().all(|y| *y <= 144));
    assert_eq!(t.current_y(), 144);
    // Speed 1 then 2, 3, ...: the first frames move 1, 2, 3 pixels.
    assert_eq!(&ys[..3], &[25, 27, 30]);
}

#[test]
fn token_at_row_lands_at_once() {
    let mut t = TokenDroppingState::new(TokenColor::Yellow, 0, 5, 100, 100);
    assert_eq!(t.update(), DropEvent::Landed);
}

#[test]
fn animation_controller_ticks() {
    let frames: Vec<Sprite> = (0..3)
        .map(|i| Sprite::new(vec![Tile4::new([i; 8])], 0, ObjShape::Square, 0, 8, 8))
        .collect();
    let anim = Animation::new(frames, 2);
    let mut c = AnimationController::new(&anim);
    let mut seen = Vec::new();
    for _ in 0..7 {
        seen.push(c.frame_number());
        c.tick();
    }
    assert_eq!(seen, vec![0, 0, 1, 1, 2, 2, 0]);
}

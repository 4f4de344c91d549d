use gba_runtime::assets::tiles::Tile4;
use gba_runtime::graphics::sprite::{Animation, Sprite};
use gba_runtime::memory::block::MemoryBlockManager;
use gba_runtime::memory::shadow_oam::{ObjShape, ShadowOAM};

#[test]
fn sprite_load_claims_tiles_and_records() {
    let mut tile_memory = MemoryBlockManager::<8>::new();
    let mut oam = ShadowOAM::<4>::new();
    let big = Sprite::new(vec![Tile4::new([1; 8]); 4], 3, ObjShape::Square, 1, 16, 16);
    let small = Sprite::new(vec![Tile4::new([2; 8]); 2], 5, ObjShape::Horizontal, 0, 16, 8);
    assert_eq!((big.width(), big.height(), big.tiles().len()), (16, 16, 4));
    let a = big.load(&mut tile_memory).unwrap();
    let b = small.load(&mut tile_memory).unwrap();
    assert_eq!((a.tile_start(), b.tile_start()), (0, 4));
    assert!(big.load(&mut tile_memory).is_err());
    let entry = b.create_obj_attr_entry(&mut oam).unwrap();
    let attr = entry.get_obj_attr(&oam);
    assert_eq!(attr.tile_id, 4);
    assert_eq!(attr.palbank, 5);
    assert_eq!(attr.shape, ObjShape::Horizontal);
    assert!(!attr.is_visible());
    oam.release(entry);
    a.unload(&mut tile_memory);
    let c = small.load(&mut tile_memory).unwrap();
    assert_eq!(c.tile_start(), 0);
    b.unload(&mut tile_memory);
    c.unload(&mut tile_memory);
}

#[test]
fn animation_frames_loop() {
    let frames: Vec<Sprite> = (0..4)
        .map(|i| Sprite::new(vec![Tile4::new([i; 8])], 0, ObjShape::Square, 0, 8, 8))
        .collect();
    let anim = Animation::new(frames, 3);
    assert_eq!(anim.get_frame_index(0), 0);
    assert_eq!(anim.get_frame_index(5), 1);
    assert_eq!(anim.get_frame_index(12), 0);
    assert_eq!(anim.get_sprite(7).tiles()[0].data(), [2; 8]);
}

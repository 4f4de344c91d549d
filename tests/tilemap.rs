use gba_runtime::assets::background::{convert_tilemap, BackgroundError};
use gba_runtime::assets::tiles::Tile4;

#[test]
fn tilemap_padded_to_hardware_sizes() {
    let t = convert_tilemap(vec![1, 2, 3, 4, 5, 6], 3, 2).unwrap();
    assert_eq!((t.width(), t.height()), (32, 32));
    assert_eq!(t.indices().len(), 32 * 32);
    assert_eq!(&t.indices()[..4], &[1, 2, 3, 0]);
    assert_eq!(&t.indices()[32..35], &[4, 5, 6]);
    assert!(t.indices()[64..].iter().all(|i| *i == 0));
    let wide = convert_tilemap(vec![7; 40], 40, 1).unwrap();
    assert_eq!((wide.width(), wide.height()), (64, 32));
    assert!(matches!(convert_tilemap(vec![0; 65], 65, 1), Err(BackgroundError::TooLarge)));
    assert!(matches!(convert_tilemap(vec![0; 65], 1, 65), Err(BackgroundError::TooLarge)));
}

#[test]
fn tile_from_pixels() {
    let mut pixels = vec![0u8; 64];
    pixels[0] = 1;
    pixels[7] = 15;
    pixels[63] = 2;
    let t = Tile4::from_pixels(&pixels);
    assert_eq!(t.data()[0], 0xF000_0001);
    assert_eq!(t.data()[7], 0x2000_0000);
}

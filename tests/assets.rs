use gba_runtime::assets::binpack::{binpack, BinItem, BinPackError};
use gba_runtime::assets::grid::resize_grid;
use gba_runtime::assets::palette::{palette_entry_to_15bit_color, MappedPalette, Palette};
use gba_runtime::assets::tiles::{
    convert_sprite_to_tiles, get_padded_sprite_dimensions, image_to_tiles, pack_tile_row, SpriteWithPalette,
    Tile4, TileVec,
};

#[test]
fn binpack_first_fit_decreasing() {
    let items = vec![
        BinItem::new('a', 5),
        BinItem::new('b', 3),
        BinItem::new('c', 4),
        BinItem::new('d', 2),
    ];
    let bins = binpack(items, 8).unwrap();
    assert_eq!(bins.len(), 2);
    assert_eq!(bins[0].current_size(), 8);
    assert_eq!(bins[1].current_size(), 6);
    assert_eq!(bins[0].capacity(), 8);
    let contents: Vec<Vec<char>> = bins.into_iter().map(|b| b.into_items()).collect();
    assert_eq!(contents, vec![vec!['a', 'b'], vec!['c', 'd']]);
}

#[test]
fn binpack_equal_sizes_and_empty_input() {
    let items = vec![BinItem::new(1u8, 4), BinItem::new(2u8, 4), BinItem::new(3u8, 4)];
    let bins = binpack(items, 8).unwrap();
    let contents: Vec<Vec<u8>> = bins.into_iter().map(|b| b.into_items()).collect();
    assert_eq!(contents, vec![vec![3, 2], vec![1]]);
    let empty: Vec<BinItem<u8>> = Vec::new();
    let bins = binpack(empty, 8).unwrap();
    assert_eq!(bins.len(), 1);
    assert_eq!(bins[0].len(), 0);
}

#[test]
fn binpack_rejects_oversized_item() {
    let items = vec![BinItem::new(1u8, 2), BinItem::new(2u8, 9)];
    assert!(matches!(binpack(items, 8), Err(BinPackError::ItemTooLarge)));
}

#[test]
fn resize_grid_pads_and_truncates() {
    let grid = vec![1u8, 2, 3, 4];
    assert_eq!(resize_grid(grid.clone(), 2, 2, 3, 3), vec![1, 2, 0, 3, 4, 0, 0, 0, 0]);
    let wide = vec![1u8, 2, 3, 4, 5, 6];
    assert_eq!(resize_grid(wide, 3, 2, 2, 1), vec![1, 2]);
    assert_eq!(resize_grid(grid, 2, 2, 2, 2), vec![1, 2, 3, 4]);
}

#[test]
fn pack_row_puts_first_pixel_lowest() {
    assert_eq!(pack_tile_row([1, 2, 3, 4, 5, 6, 7, 8]), 0x8765_4321);
    assert_eq!(pack_tile_row([15; 8]), 0xFFFF_FFFF);
    assert_eq!(pack_tile_row([0; 8]), 0);
}

#[test]
fn padded_sprite_dimensions() {
    assert_eq!(get_padded_sprite_dimensions(1, 1), (8, 8));
    assert_eq!(get_padded_sprite_dimensions(10, 10), (16, 16));
    assert_eq!(get_padded_sprite_dimensions(20, 8), (32, 8));
    assert_eq!(get_padded_sprite_dimensions(9, 20), (16, 32));
    assert_eq!(get_padded_sprite_dimensions(64, 64), (64, 64));
}

#[test]
fn image_cut_into_tiles() {
    // 16x8 image: the left tile is all 1, the right tile all 2.
    let mut img = Vec::new();
    for _ in 0..8 {
        img.extend_from_slice(&[1u8; 8]);
        img.extend_from_slice(&[2u8; 8]);
    }
    let (tiles, cols, rows) = image_to_tiles(&img, 16, 8);
    assert_eq!((cols, rows), (2, 1));
    assert_eq!(tiles[0].data(), [0x1111_1111; 8]);
    assert_eq!(tiles[1].data(), [0x2222_2222; 8]);
    let tv = TileVec::new(tiles, cols, rows);
    assert_eq!((tv.num_cols(), tv.num_rows(), tv.tiles().len()), (2, 1, 2));
    assert_eq!(Tile4::new([7; 8]).data(), [7; 8]);
}

#[test]
fn sprite_frames_converted() {
    let mut indices = [0u8; 16];
    for (i, v) in indices.iter_mut().enumerate() {
        *v = (15 - i) as u8;
    }
    let mapped = MappedPalette::new(2, indices, Some(3));
    assert_eq!(mapped.map_index(3), 0);
    assert_eq!(mapped.map_index(1), 14);
    assert_eq!(mapped.palette_bank(), 2);
    let sprite = SpriteWithPalette {
        name: String::from("dot"),
        palette: Palette::new(vec![0, 31]),
        width: 2,
        height: 1,
        image_data: vec![vec![1, 3], vec![0, 0]],
        transparency_index: Some(3),
        num_frames: 2,
    };
    let frames = convert_sprite_to_tiles(&sprite, &mapped);
    assert_eq!(frames.len(), 2);
    assert_eq!((frames[0].num_cols(), frames[0].num_rows()), (1, 1));
    let first = frames[0].tiles()[0].data();
    assert_eq!(first[0], 14);
    assert_eq!(&first[1..], &[0u32; 7]);
    assert_eq!(frames[1].tiles()[0].data()[0], 0xFF);
}

#[test]
fn palette_colors() {
    assert_eq!(palette_entry_to_15bit_color(255, 0, 0), 31);
    assert_eq!(palette_entry_to_15bit_color(0, 255, 0), 31 << 5);
    assert_eq!(palette_entry_to_15bit_color(0, 0, 255), 31 << 10);
    assert_eq!(palette_entry_to_15bit_color(8, 16, 24), 1 | (2 << 5) | (3 << 10));
    let big = Palette::new(vec![1, 2, 3]);
    let small = Palette::new(vec![3, 1]);
    assert!(big.contains(&small));
    assert!(!small.contains(&big));
    assert_eq!(big.len(), 3);
}

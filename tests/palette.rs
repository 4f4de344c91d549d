use gba_runtime::assets::binpack::{binpack, BinItem};
use gba_runtime::assets::palette::{flatten_palette_banks, Palette, PaletteMapper};

#[test]
fn palette_banks_flattened_and_mapped() {
    let a = Palette::new(vec![10, 11, 12]);
    let b = Palette::new(vec![20, 21]);
    let c = Palette::new(vec![30; 14]);
    let items = vec![
        BinItem::new(a.clone(), a.len()),
        BinItem::new(b.clone(), b.len()),
        BinItem::new(c.clone(), c.len()),
    ];
    let bins = binpack(items, 15).unwrap();
    assert_eq!(bins.len(), 2);
    let banks = flatten_palette_banks(bins);
    assert_eq!(banks.len(), 2);
    let mapper = PaletteMapper::from_palettes(&banks);
    let full = mapper.full_palette();
    assert_eq!(full.len(), 256);
    // First bank: zero, then the fourteen-colour palette, then a zero pad.
    let raw_c = Palette::new(vec![30]);
    let mapped = mapper.map_palette(&raw_c, None).unwrap();
    assert_eq!(mapped.palette_bank(), 0);
    assert_eq!(mapped.indices[0], 1);
    // Second bank: zero, the three colours, the two colours, zeros.
    let raw_b = Palette::new(vec![21, 20]);
    let mapped = mapper.map_palette(&raw_b, Some(7)).unwrap();
    assert_eq!(mapped.palette_bank(), 1);
    assert_eq!(&mapped.indices[..3], &[5, 4, 0]);
    assert_eq!(mapped.map_index(7), 0);
    assert!(mapper.map_palette(&Palette::new(vec![99]), None).is_none());
}

#[test]
fn palette_bank_cut_to_sixteen() {
    let bins = binpack(vec![BinItem::new(Palette::new((1..=20).collect()), 3)], 15).unwrap();
    let banks = flatten_palette_banks(bins);
    let mapper = PaletteMapper::from_palettes(&banks);
    assert!(mapper.map_palette(&Palette::new(vec![15]), None).is_some());
    assert!(mapper.map_palette(&Palette::new(vec![16]), None).is_none());
}

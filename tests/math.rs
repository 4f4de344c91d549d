use gba_runtime::graphics::effects::spinner::Spinner;
use gba_runtime::math::{cos, sin, LookupTable, LOOKUP_SIZE};

#[test]
fn sine_and_cosine_lookup() {
    let table = LookupTable::new((0..LOOKUP_SIZE as i16).collect());
    assert_eq!(sin(&table, 0), 0);
    assert_eq!(sin(&table, 0x4000), 128);
    assert_eq!(sin(&table, 0xFFFF), 511);
    assert_eq!(cos(&table, 0), 128);
    assert_eq!(cos(&table, 0xC000), 0);
    assert_eq!(cos(&table, 0x8000), 384);
}

#[test]
fn spinner_affine_params() {
    let table = LookupTable::new((0..LOOKUP_SIZE as i16).map(|i| i - 256).collect());
    let mut s = Spinner::new(0x4000, 0);
    s.update();
    assert_eq!(s.rotation(), 0x4000);
    // sin is entry 128 (-128), cos entry 256 (0).
    assert_eq!(s.affine_params(&table), (0, 128, -128, 0));
}

use gba_runtime::input::{read_key, update_input, GbaKey, InputState};

#[test]
fn input_edges() {
    let mut input = InputState::new();
    update_input(&mut input, GbaKey::A.mask() | GbaKey::L.mask());
    assert!(input.key_was_pressed(GbaKey::A));
    assert!(input.key_was_pressed(GbaKey::L));
    assert!(!input.key_was_pressed(GbaKey::B));
    update_input(&mut input, GbaKey::A.mask());
    assert!(!input.key_was_pressed(GbaKey::A));
    assert!(input.key_was_released(GbaKey::L));
    assert!(!input.key_was_released(GbaKey::A));
    assert_eq!(input.input_state(), 1);
    assert!(read_key(&GbaKey::START, 0x0008));
    assert!(!read_key(&GbaKey::START, 0x0007));
}

//! Key input latched once per frame: the keys held now and a frame ago.
use vstd::prelude::*;

verus! {

/// Keys of the handheld.
#[derive(Clone, Copy, Debug, PartialEq, Eq, Structural)]
pub enum GbaKey {
    A,
    B,
    SELECT,
    START,
    UP,
    DOWN,
    LEFT,
    RIGHT,
    L,
    R,
}

impl GbaKey {
    /// The key's bit in a mask of held keys, in the order of the key register.
    pub open spec fn spec_mask(&self) -> u16 {
        match self {
            GbaKey::A => 0x001,
            GbaKey::B => 0x002,
            GbaKey::SELECT => 0x004,
            GbaKey::START => 0x008,
            GbaKey::RIGHT => 0x010,
            GbaKey::LEFT => 0x020,
            GbaKey::UP => 0x040,
            GbaKey::DOWN => 0x080,
            GbaKey::R => 0x100,
            GbaKey::L => 0x200,
        }
    }

    pub fn mask(&self) -> (r: u16)
        ensures
            r == self.spec_mask(),
    {
        match self {
            GbaKey::A => 0x001,
            GbaKey::B => 0x002,
            GbaKey::SELECT => 0x004,
            GbaKey::START => 0x008,
            GbaKey::RIGHT => 0x010,
            GbaKey::LEFT => 0x020,
            GbaKey::UP => 0x040,
            GbaKey::DOWN => 0x080,
            GbaKey::R => 0x100,
            GbaKey::L => 0x200,
        }
    }
}

/// `key` is held in the mask `held`.
pub open spec fn held_in(key: GbaKey, held: u16) -> bool {
    held & key.spec_mask() != 0
}

/// Whether `key` is held in the mask `input_state`.
pub fn read_key(key: &GbaKey, input_state: u16) -> (r: bool)
    ensures
        r == held_in(*key, input_state),
{
    input_state & key.mask() != 0
}

/// The keys held at the latest latch and at the one before.
#[derive(Clone, Copy, Debug, PartialEq, Eq, Structural)]
pub struct InputState {
    previous: u16,
    current: u16,
}

impl InputState {
    pub closed spec fn spec_previous(&self) -> u16 {
        self.previous
    }

    pub closed spec fn spec_current(&self) -> u16 {
        self.current
    }

    /// No key held, now or before.
    pub fn new() -> (r: Self)
        ensures
            r.spec_previous() == 0,
            r.spec_current() == 0,
    {
        Self { previous: 0, current: 0 }
    }

    /// The keys held now.
    pub fn input_state(&self) -> (r: u16)
        ensures
            r == self.spec_current(),
    {
        self.current
    }

    /// `key` went down since the previous latch.
    pub fn key_was_pressed(&self, key: GbaKey) -> (r: bool)
        ensures
            r == (held_in(key, self.spec_current()) && !held_in(key, self.spec_previous())),
    {
        read_key(&key, self.current) && !read_key(&key, self.previous)
    }

    /// `key` went up since the previous latch.
    pub fn key_was_released(&self, key: GbaKey) -> (r: bool)
        ensures
            r == (held_in(key, self.spec_previous()) && !held_in(key, self.spec_current())),
    {
        read_key(&key, self.previous) && !read_key(&key, self.current)
    }
}

/// Latches the keys held this frame, `keystate`, keeping the last latch as
/// the previous one.
pub fn update_input(state: &mut InputState, keystate: u16)
    ensures
        final(state).spec_previous() == old(state).spec_current(),
        final(state).spec_current() == keystate,
{
    state.previous = state.current;
    state.current = keystate;
}

} // verus!

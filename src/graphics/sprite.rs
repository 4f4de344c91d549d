//! Sprites: tiles loaded into object tile memory, drawn through records of
//! the shadow object-attribute table.
use vstd::prelude::*;

use crate::assets::tiles::Tile4;
use crate::memory::block::{ClaimedVolRegion, MemoryBlockManager};
use crate::memory::contiguous::{first_fit_at, has_fit, mark, OutOfMemoryError};
use crate::memory::shadow_oam::{ObjAttr, ObjShape, OAMEntry, ShadowOAM};

verus! {

/// A sprite's tiles and how its records draw them.
pub struct Sprite {
    tiles: Vec<Tile4>,
    palette_bank: u8,
    shape: ObjShape,
    size: u16,
    width: usize,
    height: usize,
}

impl Sprite {
    pub closed spec fn spec_tiles(&self) -> Seq<Tile4> {
        self.tiles@
    }

    pub closed spec fn spec_palette_bank(&self) -> u8 {
        self.palette_bank
    }

    pub closed spec fn spec_shape(&self) -> ObjShape {
        self.shape
    }

    pub closed spec fn spec_size(&self) -> u16 {
        self.size
    }

    pub closed spec fn spec_width(&self) -> usize {
        self.width
    }

    pub closed spec fn spec_height(&self) -> usize {
        self.height
    }

    pub fn new(tiles: Vec<Tile4>, palette_bank: u8, shape: ObjShape, size: u16, width: usize, height: usize) -> (r: Self)
        ensures
            r.spec_tiles() == tiles@,
            r.spec_palette_bank() == palette_bank,
            r.spec_shape() == shape,
            r.spec_size() == size,
            r.spec_width() == width,
            r.spec_height() == height,
    {
        Self { tiles, palette_bank, shape, size, width, height }
    }

    pub fn height(&self) -> (r: usize)
        ensures
            r == self.spec_height(),
    {
        self.height
    }

    pub fn width(&self) -> (r: usize)
        ensures
            r == self.spec_width(),
    {
        self.width
    }

    pub fn tiles(&self) -> (r: &Vec<Tile4>)
        ensures
            r@ == self.spec_tiles(),
    {
        &self.tiles
    }

    /// Claims object tile memory for the sprite's tiles, first-fit; the
    /// tiles are to be copied to the claimed span. Fails, changing nothing,
    /// when no span is large enough.
    pub fn load<const C: usize>(&self, tile_memory: &mut MemoryBlockManager<C>) -> (r: Result<LoadedSprite, OutOfMemoryError>)
        requires
            old(tile_memory).wf(),
        ensures
            final(tile_memory).wf(),
            match r {
                Ok(l) => {
                    &&& l.spec_memory().spec_size() == self.spec_tiles().len()
                    &&& first_fit_at(old(tile_memory)@, 1, self.spec_tiles().len() as int, l.spec_memory().spec_start())
                    &&& l.spec_memory().spec_start() + l.spec_memory().spec_size() <= C
                    &&& final(tile_memory)@ == mark(old(tile_memory)@, l.spec_memory().spec_start(), l.spec_memory().spec_size(), true)
                    &&& final(tile_memory).owns(&l.spec_memory())
                    &&& l.spec_palette_bank() == self.spec_palette_bank()
                    &&& l.spec_shape() == self.spec_shape()
                    &&& l.spec_size() == self.spec_size()
                },
                Err(_) => !has_fit(old(tile_memory)@, 1, self.spec_tiles().len() as int) && *final(tile_memory) == *old(tile_memory),
            },
    {
        match tile_memory.request_memory(self.tiles.len()) {
            Ok(memory) => Ok(LoadedSprite { memory, palette_bank: self.palette_bank, shape: self.shape, size: self.size }),
            Err(e) => Err(e),
        }
    }
}

/// A sprite whose tiles hold a span of object tile memory.
pub struct LoadedSprite {
    memory: ClaimedVolRegion,
    palette_bank: u8,
    shape: ObjShape,
    size: u16,
}

/// `a` set up to draw the loaded sprite `s`: shape, size, first tile and
/// palette bank; every other field kept.
pub open spec fn drawn_by(a: ObjAttr, s: LoadedSprite) -> ObjAttr {
    ObjAttr {
        shape: s.spec_shape(),
        size: s.spec_size(),
        tile_id: s.spec_memory().spec_start() as u16,
        palbank: s.spec_palette_bank() as u16,
        ..a
    }
}

impl LoadedSprite {
    pub closed spec fn spec_memory(&self) -> ClaimedVolRegion {
        self.memory
    }

    pub closed spec fn spec_palette_bank(&self) -> u8 {
        self.palette_bank
    }

    pub closed spec fn spec_shape(&self) -> ObjShape {
        self.shape
    }

    pub closed spec fn spec_size(&self) -> u16 {
        self.size
    }

    /// The first claimed tile.
    pub fn tile_start(&self) -> (r: usize)
        ensures
            r == self.spec_memory().spec_start(),
    {
        self.memory.get_start()
    }

    /// Points an owned record at this sprite.
    pub fn store_in_obj_entry<const C: usize>(&self, oam: &mut ShadowOAM<C>, entry: &OAMEntry)
        requires
            old(oam).wf(),
            old(oam).owns(entry),
            self.spec_memory().spec_start() <= u16::MAX,
        ensures
            final(oam).wf(),
            final(oam)@ == old(oam)@.update(entry.spec_index(), drawn_by(old(oam)@[entry.spec_index()], *self)),
            final(oam).occupied() == old(oam).occupied(),
            final(oam).claims() == old(oam).claims(),
    {
        let mut oa = entry.get_obj_attr(oam);
        oa.shape = self.shape;
        oa.size = self.size;
        oa.tile_id = self.memory.get_start() as u16;
        oa.palbank = self.palette_bank as u16;
        oam.set_obj_attr(entry, oa);
    }

    /// Claims a record of the table, hidden, and points it at this sprite.
    pub fn create_obj_attr_entry<const C: usize>(&self, oam: &mut ShadowOAM<C>) -> (r: Result<OAMEntry, OutOfMemoryError>)
        requires
            old(oam).wf(),
            self.spec_memory().spec_start() <= u16::MAX,
        ensures
            final(oam).wf(),
            match r {
                Ok(e) => {
                    &&& final(oam).owns(&e)
                    &&& !old(oam).occupied()[e.spec_index()]
                    &&& forall|j: int| 0 <= j < e.spec_index() ==> old(oam).occupied()[j]
                    &&& final(oam)@[e.spec_index()] == drawn_by(
                        crate::memory::shadow_oam::blank_attr(crate::memory::shadow_oam::ObjDisplayStyle::NotDisplayed), *self)
                },
                Err(_) => *final(oam) == *old(oam),
            },
    {
        match oam.request_memory() {
            Ok(e) => {
                let ghost mid = oam@;
                proof {
                    oam.lemma_free_records_hidden();
                    old(oam).lemma_free_records_hidden();
                    assert(mid[e.spec_index()] == crate::memory::shadow_oam::blank_attr(
                        crate::memory::shadow_oam::ObjDisplayStyle::NotDisplayed));
                }
                self.store_in_obj_entry(oam, &e);
                assert(oam@[e.spec_index()] == drawn_by(mid[e.spec_index()], *self));
                Ok(e)
            },
            Err(err) => Err(err),
        }
    }

    /// Hands the sprite's tile memory back.
    pub fn unload<const C: usize>(self, tile_memory: &mut MemoryBlockManager<C>)
        requires
            old(tile_memory).wf(),
            old(tile_memory).owns(&self.spec_memory()),
        ensures
            final(tile_memory).wf(),
            final(tile_memory)@ == mark(old(tile_memory)@, self.spec_memory().spec_start(), self.spec_memory().spec_size(), false),
    {
        tile_memory.release(self.memory);
    }
}

/// Frames of an animation and how many screen refreshes each lasts.
pub struct Animation {
    sprites: Vec<Sprite>,
    tick_rate: u8,
}

impl Animation {
    pub closed spec fn spec_sprites(&self) -> Seq<Sprite> {
        self.sprites@
    }

    pub open spec fn spec_frames(&self) -> nat {
        self.spec_sprites().len()
    }

    pub closed spec fn spec_tick_rate(&self) -> u8 {
        self.tick_rate
    }

    pub fn new(sprites: Vec<Sprite>, tick_rate: u8) -> (r: Self)
        requires
            sprites@.len() > 0,
            sprites@.len() <= u16::MAX,
            tick_rate > 0,
        ensures
            r.spec_sprites() == sprites@,
            r.spec_tick_rate() == tick_rate,
    {
        Self { sprites, tick_rate }
    }

    /// The frame shown `time` refreshes after the start, looping.
    pub fn get_frame_index(&self, time: u16) -> (r: usize)
        requires
            self.spec_frames() > 0,
            self.spec_frames() <= u16::MAX,
            self.spec_tick_rate() > 0,
        ensures
            r == (time as int / self.spec_tick_rate() as int) % (self.spec_frames() as int),
            r < self.spec_frames(),
    {
        let num_frames: u16 = self.sprites.len() as u16;
        let tick_rate: u16 = self.tick_rate as u16;
        ((time / tick_rate) % num_frames) as usize
    }

    /// The sprite shown `time` refreshes after the start.
    pub fn get_sprite(&self, time: u16) -> (r: &Sprite)
        requires
            self.spec_frames() > 0,
            self.spec_frames() <= u16::MAX,
            self.spec_tick_rate() > 0,
        ensures
            *r == self.spec_sprites()[(time as int / self.spec_tick_rate() as int) % (self.spec_frames() as int)],
    {
        let i = self.get_frame_index(time);
        &self.sprites[i]
    }
}

/// Steps through the frames of an animation: each frame shows for
/// `tick_rate` ticks, and the last is followed by the first.
#[derive(Clone, Copy, Debug, PartialEq, Eq, Structural)]
pub struct AnimationController {
    frames: usize,
    tick_rate: u8,
    tick_counter: u8,
    frame_number: usize,
}

impl AnimationController {
    pub closed spec fn spec_frame(&self) -> usize {
        self.frame_number
    }

    pub closed spec fn spec_counter(&self) -> u8 {
        self.tick_counter
    }

    pub closed spec fn spec_frames(&self) -> usize {
        self.frames
    }

    pub closed spec fn spec_tick_rate(&self) -> u8 {
        self.tick_rate
    }

    pub closed spec fn wf(&self) -> bool {
        &&& self.frames > 0
        &&& self.tick_rate > 0
        &&& self.tick_counter < self.tick_rate
        &&& self.frame_number < self.frames
    }

    /// A controller at the first frame of an animation.
    pub fn new(animation: &Animation) -> (r: Self)
        requires
            animation.spec_frames() > 0,
            animation.spec_tick_rate() > 0,
        ensures
            r.wf(),
            r.spec_frames() == animation.spec_frames(),
            r.spec_tick_rate() == animation.spec_tick_rate(),
            r.spec_frame() == 0,
            r.spec_counter() == 0,
    {
        Self { frames: animation.sprites.len(), tick_rate: animation.tick_rate, tick_counter: 0, frame_number: 0 }
    }

    /// Counts one tick; on the `tick_rate`-th moves to the next frame.
    pub fn tick(&mut self)
        requires
            old(self).wf(),
        ensures
            final(self).wf(),
            final(self).spec_frames() == old(self).spec_frames(),
            final(self).spec_tick_rate() == old(self).spec_tick_rate(),
            old(self).spec_counter() + 1 == old(self).spec_tick_rate() ==> final(self).spec_counter() == 0
                && final(self).spec_frame() == (old(self).spec_frame() + 1) % (old(self).spec_frames() as int),
            old(self).spec_counter() + 1 < old(self).spec_tick_rate() ==> final(self).spec_counter() == old(self).spec_counter() + 1
                && final(self).spec_frame() == old(self).spec_frame(),
    {
        self.tick_counter = self.tick_counter + 1;
        if self.tick_counter == self.tick_rate {
            self.tick_counter = 0;
            self.frame_number = (self.frame_number + 1) % self.frames;
        }
    }

    /// The frame to show.
    pub fn frame_number(&self) -> (r: usize)
        ensures
            r == self.spec_frame(),
    {
        self.frame_number
    }
}

} // verus!

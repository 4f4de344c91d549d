//! An in-memory copy of the object-attribute table. Claims are slots of the
//! copy; `sync` hands out all records, in index order, for the hardware
//! table to be written during the blanking interval.
use vstd::prelude::*;

use super::contiguous::OutOfMemoryError;
use super::slot::{ClaimedMemorySlot, MemorySlotTracker};

verus! {

/// Number of records in the hardware object-attribute table.
pub const OAM_SIZE: usize = 128;

/// How an object is drawn.
#[derive(Clone, Copy, Debug, PartialEq, Eq, Structural)]
pub enum ObjDisplayStyle {
    Normal,
    Affine,
    NotDisplayed,
    DoubleSizeAffine,
}

/// Shape of an object's tile block.
#[derive(Clone, Copy, Debug, PartialEq, Eq, Structural)]
pub enum ObjShape {
    Square,
    Horizontal,
    Vertical,
}

/// One object-attribute record: display style plus position and appearance.
#[derive(Clone, Copy, Debug, PartialEq, Eq, Structural)]
pub struct ObjAttr {
    pub style: ObjDisplayStyle,
    pub shape: ObjShape,
    pub size: u16,
    pub x: u16,
    pub y: u16,
    pub tile_id: u16,
    pub palbank: u16,
    pub priority: u16,
    pub affine_index: u16,
}

/// The record with every field zero and the given style.
pub open spec fn blank_attr(style: ObjDisplayStyle) -> ObjAttr {
    ObjAttr { style, shape: ObjShape::Square, size: 0, x: 0, y: 0, tile_id: 0, palbank: 0, priority: 0, affine_index: 0 }
}

/// `a` with its style forced to hidden, every other field kept.
pub open spec fn hidden(a: ObjAttr) -> ObjAttr {
    ObjAttr { style: ObjDisplayStyle::NotDisplayed, ..a }
}

impl ObjAttr {
    /// A record with every field zero, drawn normally.
    pub fn new() -> (r: Self)
        ensures
            r == blank_attr(ObjDisplayStyle::Normal),
    {
        ObjAttr {
            style: ObjDisplayStyle::Normal,
            shape: ObjShape::Square,
            size: 0,
            x: 0,
            y: 0,
            tile_id: 0,
            palbank: 0,
            priority: 0,
            affine_index: 0,
        }
    }

    pub fn set_style(&mut self, style: ObjDisplayStyle)
        ensures
            *final(self) == (ObjAttr { style, ..*old(self) }),
    {
        self.style = style;
    }

    pub fn is_visible(&self) -> (r: bool)
        ensures
            r == (self.style != ObjDisplayStyle::NotDisplayed),
    {
        !matches!(self.style, ObjDisplayStyle::NotDisplayed)
    }
}

/// A claimed record of a shadow table. Handing it back to the table hides
/// the record before its slot is freed.
pub struct OAMEntry {
    slot: ClaimedMemorySlot,
}

impl OAMEntry {
    /// The claimed record's index.
    pub open spec fn spec_index(&self) -> int {
        self.slot().spec_index()
    }

    /// The underlying slot claim.
    pub closed spec fn slot(&self) -> ClaimedMemorySlot {
        self.slot
    }

    pub fn index(&self) -> (r: usize)
        ensures
            r == self.spec_index(),
    {
        self.slot.index()
    }

    /// The current content of the claimed record.
    pub fn get_obj_attr<const C: usize>(&self, oam: &ShadowOAM<C>) -> (r: ObjAttr)
        requires
            oam.wf(),
            oam.owns(self),
        ensures
            r == oam@[self.spec_index()],
    {
        proof { oam.lemma_owned_in_range(self); }
        oam.mem[self.slot.index()]
    }
}

/// The shadow copy of a table of `C` records.
pub struct ShadowOAM<const C: usize> {
    mem: Vec<ObjAttr>,
    tracker: MemorySlotTracker<C>,
}

impl<const C: usize> ShadowOAM<C> {
    /// The records, in index order.
    pub closed spec fn view(&self) -> Seq<ObjAttr> {
        self.mem@
    }

    /// Which records are claimed.
    pub closed spec fn occupied(&self) -> Seq<bool> {
        self.tracker@
    }

    /// The live slot claims of the table.
    pub closed spec fn claims(&self) -> Map<nat, (int, int)> {
        self.tracker.claims()
    }

    /// `C` records, of which every unclaimed one is hidden.
    pub closed spec fn wf(&self) -> bool {
        &&& self.mem@.len() == C
        &&& self.tracker.wf()
        &&& forall|i: int| 0 <= i < C && !self.tracker@[i] ==> (#[trigger] self.mem@[i]).style == ObjDisplayStyle::NotDisplayed
    }

    /// The entry `e` is live in this table.
    pub open spec fn owns(&self, e: &OAMEntry) -> bool {
        self.claims().contains_key(e.slot().id()) && self.claims()[e.slot().id()] == e.slot().range()
    }

    /// A well-formed table holds `C` records, and every unclaimed record is hidden.
    pub proof fn lemma_free_records_hidden(&self)
        requires
            self.wf(),
        ensures
            self@.len() == C,
            self.occupied().len() == C,
            forall|i: int| 0 <= i < C && !self.occupied()[i] ==> (#[trigger] self@[i]).style == ObjDisplayStyle::NotDisplayed,
    {
        self.tracker.lemma_tracker_len();
    }

    /// An owned entry's record lies in the table and is claimed.
    pub proof fn lemma_owned_in_range(&self, e: &OAMEntry)
        requires
            self.wf(),
            self.owns(e),
        ensures
            0 <= e.spec_index() < C,
            self.occupied()[e.spec_index()],
    {
        self.tracker.lemma_owned_slot_occupied(&e.slot);
    }

    /// A table whose records are all hidden and all free.
    pub fn new() -> (r: Self)
        ensures
            r.wf(),
            r@ == Seq::new(C as nat, |i: int| blank_attr(ObjDisplayStyle::NotDisplayed)),
            r.occupied() == Seq::new(C as nat, |i: int| false),
            r.claims().is_empty(),
    {
        let mut mem: Vec<ObjAttr> = Vec::new();
        let mut i: usize = 0;
        while i < C
            invariant
                i <= C,
                mem@ == Seq::new(i as nat, |j: int| blank_attr(ObjDisplayStyle::NotDisplayed)),
            decreases C - i,
        {
            let mut oa = ObjAttr::new();
            oa.set_style(ObjDisplayStyle::NotDisplayed);
            mem.push(oa);
            i = i + 1;
            assert(mem@ =~= Seq::new(i as nat, |j: int| blank_attr(ObjDisplayStyle::NotDisplayed)));
        }
        Self { mem, tracker: MemorySlotTracker::new() }
    }

    /// Claims the lowest free record and resets it to a blank, hidden record;
    /// fails, changing nothing, when every record is claimed.
    pub fn request_memory(&mut self) -> (r: Result<OAMEntry, OutOfMemoryError>)
        requires
            old(self).wf(),
        ensures
            final(self).wf(),
            match r {
                Ok(e) => {
                    &&& 0 <= e.spec_index() < C
                    &&& !old(self).occupied()[e.spec_index()]
                    &&& forall|j: int| 0 <= j < e.spec_index() ==> old(self).occupied()[j]
                    &&& final(self).occupied() == old(self).occupied().update(e.spec_index(), true)
                    &&& final(self)@ == old(self)@.update(e.spec_index(), blank_attr(ObjDisplayStyle::NotDisplayed))
                    &&& final(self).owns(&e)
                    &&& forall|o: &OAMEntry| old(self).owns(o) ==> final(self).owns(o)
                },
                Err(_) => {
                    &&& forall|j: int| 0 <= j < C ==> old(self).occupied()[j]
                    &&& *final(self) == *old(self)
                },
            },
    {
        proof { self.tracker.lemma_tracker_len(); }
        match self.tracker.request_slot() {
            Ok(slot) => {
                let i = slot.index();
                let mut oa = ObjAttr::new();
                oa.set_style(ObjDisplayStyle::NotDisplayed);
                self.mem.set(i, oa);
                let e = OAMEntry { slot };
                proof {
                    self.tracker.lemma_tracker_len();
                    assert forall|o: &OAMEntry| old(self).owns(o) implies self.owns(o) by {
                        assert(o.slot().id() != e.slot().id());
                    }
                }
                Ok(e)
            },
            Err(err) => Err(err),
        }
    }

    /// Replaces the content of an owned record.
    pub fn set_obj_attr(&mut self, e: &OAMEntry, attr: ObjAttr)
        requires
            old(self).wf(),
            old(self).owns(e),
        ensures
            final(self).wf(),
            final(self)@ == old(self)@.update(e.spec_index(), attr),
            final(self).occupied() == old(self).occupied(),
            final(self).claims() == old(self).claims(),
    {
        proof { self.lemma_owned_in_range(e); }
        self.mem.set(e.slot.index(), attr);
    }

    /// Hands an entry back: its record is hidden first, then its slot freed.
    pub fn release(&mut self, e: OAMEntry)
        requires
            old(self).wf(),
            old(self).owns(&e),
        ensures
            final(self).wf(),
            final(self)@ == old(self)@.update(e.spec_index(), hidden(old(self)@[e.spec_index()])),
            final(self).occupied() == old(self).occupied().update(e.spec_index(), false),
            final(self).claims() == old(self).claims().remove(e.slot().id()),
    {
        proof {
            self.lemma_owned_in_range(&e);
            self.tracker.lemma_tracker_len();
        }
        let i = e.slot.index();
        let mut oa = self.mem[i];
        oa.set_style(ObjDisplayStyle::NotDisplayed);
        self.mem.set(i, oa);
        self.tracker.release_slot(e.slot);
        proof {
            self.tracker.lemma_tracker_len();
            assert forall|j: int| 0 <= j < C && !self.tracker@[j] implies (#[trigger] self.mem@[j]).style == ObjDisplayStyle::NotDisplayed by {
                if j != i {
                    assert(!old(self).tracker@[j]);
                }
            }
        }
    }

    /// All `C` records, in index order, as the hardware table must receive them.
    pub fn sync(&self) -> (r: Vec<ObjAttr>)
        requires
            self.wf(),
        ensures
            r@ == self@,
            r@.len() == C,
    {
        let mut out: Vec<ObjAttr> = Vec::new();
        let mut i: usize = 0;
        while i < C
            invariant
                i <= C,
                self.mem@.len() == C,
                out@ == self.mem@.subrange(0, i as int),
            decreases C - i,
        {
            out.push(self.mem[i]);
            i = i + 1;
            assert(out@ =~= self.mem@.subrange(0, i as int));
        }
        assert(out@ =~= self.mem@);
        out
    }
}

} // verus!

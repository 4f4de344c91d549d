use gba_runtime::memory::block::MemoryBlockManager;
use gba_runtime::memory::contiguous::{ContiguousMemoryTracker, OutOfMemoryError};
use gba_runtime::memory::series::MemorySeriesManager;
use gba_runtime::memory::shadow_oam::{ObjAttr, ObjDisplayStyle, ShadowOAM};
use gba_runtime::memory::slot::MemorySlotTracker;
use gba_runtime::memory::strided_grid::MemoryStridedGridManager;

#[test]
fn tracker_scenario_aligned_pairs() {
    let mut t = ContiguousMemoryTracker::<8>::new();
    let a = t.request_aligned_memory(4, 1).unwrap();
    assert_eq!(a.address_range(), 0..4);
    let b = t.request_aligned_memory(4, 1).unwrap();
    assert_eq!(b.address_range(), 4..8);
    let c = t.request_aligned_memory(4, 1);
    assert!(matches!(c, Err(OutOfMemoryError)));
    t.release(a);
    let d = t.request_aligned_memory(4, 1).unwrap();
    assert_eq!(d.start(), 0);
    assert_eq!(d.size(), 4);
    t.release(b);
    t.release(d);
}

#[test]
fn tracker_start_is_aligned() {
    let mut t = ContiguousMemoryTracker::<16>::new();
    let a = t.request_aligned_memory(1, 1).unwrap();
    assert_eq!(a.start(), 0);
    let b = t.request_aligned_memory(4, 1).unwrap();
    assert_eq!(b.start(), 4);
    let c = t.request_aligned_memory(3, 2).unwrap();
    assert_eq!(c.start() % 3, 0);
    assert_eq!(c.start(), 9);
    assert_eq!(c.size(), 6);
}

#[test]
fn tracker_is_first_fit() {
    let mut t = ContiguousMemoryTracker::<16>::new();
    let a = t.request_aligned_memory(2, 1).unwrap();
    let b = t.request_aligned_memory(2, 2).unwrap();
    let c = t.request_aligned_memory(2, 1).unwrap();
    let d = t.request_aligned_memory(2, 2).unwrap();
    assert_eq!((a.start(), b.start(), c.start(), d.start()), (0, 2, 6, 8));
    // Free runs at 2..6 and 12..16: the lower one is taken.
    t.release(b);
    let e = t.request_aligned_memory(2, 1).unwrap();
    assert_eq!(e.start(), 2);
    // 4..6 is too small for two chunks; 12..16 fits.
    let f = t.request_aligned_memory(2, 2).unwrap();
    assert_eq!(f.start(), 12);
    t.release(a);
    t.release(c);
    t.release(d);
    t.release(e);
    t.release(f);
}

#[test]
fn tracker_reuses_released_range() {
    let mut t = ContiguousMemoryTracker::<12>::new();
    let a = t.request_aligned_memory(4, 1).unwrap();
    let b = t.request_aligned_memory(4, 1).unwrap();
    let c = t.request_aligned_memory(4, 1).unwrap();
    assert_eq!(b.start(), 4);
    t.release(b);
    let d = t.request_aligned_memory(2, 2).unwrap();
    assert_eq!(d.address_range(), 4..8);
    t.release(d);
    let e = t.request_aligned_memory(4, 1).unwrap();
    assert_eq!(e.address_range(), 4..8);
    t.release(a);
    t.release(c);
    t.release(e);
}

#[test]
fn tracker_exhaustion_leaves_bitmap_unchanged() {
    let mut t = ContiguousMemoryTracker::<8>::new();
    let a = t.request_aligned_memory(2, 1).unwrap();
    let before: Vec<bool> = (0..8).map(|i| t.is_occupied(i)).collect();
    assert!(t.request_aligned_memory(4, 3).is_err());
    assert!(t.request_aligned_memory(1, 9).is_err());
    assert!(t.request_aligned_memory(4, 2).is_err());
    let after: Vec<bool> = (0..8).map(|i| t.is_occupied(i)).collect();
    assert_eq!(before, after);
    assert_eq!(after, vec![true, true, false, false, false, false, false, false]);
    t.release(a);
    assert!((0..8).all(|i| !t.is_occupied(i)));
}

#[test]
fn tracker_zero_chunks_and_empty_region() {
    let mut t = ContiguousMemoryTracker::<4>::new();
    let z = t.request_aligned_memory(2, 0).unwrap();
    assert_eq!(z.address_range(), 0..0);
    assert!(t.request_aligned_memory(8, 1).is_err());
    let mut e = ContiguousMemoryTracker::<0>::new();
    assert!(e.request_aligned_memory(1, 1).is_err());
    t.release(z);
}

#[test]
fn tracker_bitmap_is_union_of_claims() {
    let mut t = ContiguousMemoryTracker::<10>::new();
    let a = t.request_aligned_memory(1, 3).unwrap();
    let b = t.request_aligned_memory(1, 2).unwrap();
    let c = t.request_aligned_memory(1, 4).unwrap();
    t.release(b);
    let occ: Vec<bool> = (0..10).map(|i| t.is_occupied(i)).collect();
    assert_eq!(occ, vec![true, true, true, false, false, true, true, true, true, false]);
    t.release(a);
    t.release(c);
    assert!((0..10).all(|i| !t.is_occupied(i)));
}

#[test]
fn slot_scenario_reuse_middle() {
    let mut t = MemorySlotTracker::<3>::new();
    let s0 = t.request_slot().unwrap();
    let s1 = t.request_slot().unwrap();
    let s2 = t.request_slot().unwrap();
    assert_eq!((s0.index(), s1.index(), s2.index()), (0, 1, 2));
    assert!(t.request_slot().is_err());
    t.release_slot(s1);
    assert!(!t.is_occupied(1));
    let s3 = t.request_slot().unwrap();
    assert_eq!(s3.index(), 1);
    t.release_slot(s0);
    t.release_slot(s2);
    t.release_slot(s3);
}

#[test]
fn shadow_scenario_sync_visible_and_hidden() {
    let mut oam = ShadowOAM::<2>::new();
    let e = oam.request_memory().unwrap();
    assert_eq!(e.index(), 0);
    let mut attr = e.get_obj_attr(&oam);
    attr.set_style(ObjDisplayStyle::Normal);
    attr.x = 10;
    oam.set_obj_attr(&e, attr);
    let records = oam.sync();
    assert_eq!(records.len(), 2);
    assert!(records[0].is_visible());
    assert_eq!(records[0].x, 10);
    assert!(!records[1].is_visible());
    assert_eq!(records[1].style, ObjDisplayStyle::NotDisplayed);
    oam.release(e);
}

#[test]
fn shadow_entry_hidden_on_request_and_release() {
    let mut oam = ShadowOAM::<4>::new();
    let e = oam.request_memory().unwrap();
    assert!(!e.get_obj_attr(&oam).is_visible());
    let mut attr = ObjAttr::new();
    attr.x = 7;
    attr.y = 9;
    oam.set_obj_attr(&e, attr);
    assert!(oam.sync()[0].is_visible());
    oam.release(e);
    let records = oam.sync();
    assert_eq!(records.len(), 4);
    assert!(records.iter().all(|r| !r.is_visible()));
    assert_eq!(records[0].x, 7);
    assert_eq!(records[0].y, 9);
    let again = oam.request_memory().unwrap();
    assert_eq!(again.index(), 0);
    assert_eq!(again.get_obj_attr(&oam).x, 0);
    oam.release(again);
}

#[test]
fn shadow_full_table_fails() {
    let mut oam = ShadowOAM::<2>::new();
    let a = oam.request_memory().unwrap();
    let b = oam.request_memory().unwrap();
    assert_eq!(b.index(), 1);
    assert!(oam.request_memory().is_err());
    oam.release(a);
    oam.release(b);
}

#[test]
fn block_manager_spans() {
    let mut m = MemoryBlockManager::<32>::new();
    let a = m.request_memory(5).unwrap();
    assert_eq!((a.get_start(), a.size()), (0, 5));
    assert_eq!(a.element_index(2), 2);
    let b = m.request_aligned_memory(16, 1).unwrap();
    assert_eq!((b.get_start(), b.size()), (16, 16));
    assert_eq!(b.element_index(3), 19);
    assert!(m.request_aligned_memory(16, 1).is_err());
    let c = m.request_memory(11).unwrap();
    assert_eq!(c.get_start(), 5);
    m.release(a);
    m.release(b);
    m.release(c);
}

#[test]
fn series_manager_slots() {
    let mut m = MemorySeriesManager::<2>::new();
    let a = m.request_slot().unwrap();
    let b = m.request_slot().unwrap();
    assert_eq!((a.get_index(), b.get_index()), (0, 1));
    assert!(m.request_slot().is_err());
    m.release(a);
    let c = m.request_slot().unwrap();
    assert_eq!(c.get_index(), 0);
    m.release(b);
    m.release(c);
}

#[test]
fn strided_grid_frames() {
    let mut m = MemoryStridedGridManager::<32, 2048>::new();
    let a = m.request_memory(1).unwrap();
    let b = m.request_memory(4).unwrap();
    assert_eq!(a.get_start(), 0);
    assert_eq!(b.get_start(), 1);
    assert_eq!(b.size(), 4);
    assert_eq!(b.get_frame(2), 3);
    assert_eq!(m.frame_byte_offset(b.get_frame(2)), 3 * 2048);
    let c = m.request_aligned_memory(8, 1).unwrap();
    assert_eq!(c.get_start(), 8);
    assert!(m.request_memory(28).is_err());
    m.release(a);
    m.release(b);
    m.release(c);
}

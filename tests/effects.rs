use gba_runtime::audio::drum_roll::DrumRoll;
use gba_runtime::audio::mixer::{AudioSource, AudioVolume};
use gba_runtime::graphics::background::{BackgroundLayer, BackgroundSize};
use gba_runtime::graphics::effects::background_scroller::BackgroundScroller;
use gba_runtime::graphics::effects::blending::BlendController;
use gba_runtime::graphics::effects::spinner::Spinner;
use gba_runtime::graphics::effects::Blinker;
use gba_runtime::memory::shadow_oam::{ObjAttr, ObjDisplayStyle};

#[test]
fn drum_roll_beats_and_takes_new_delay() {
    let mut d = DrumRoll::new(3);
    assert_eq!((d.update(), d.update(), d.update()), (false, false, true));
    d.set_delay(2);
    assert_eq!((d.update(), d.update(), d.update()), (false, false, true));
    assert_eq!((d.update(), d.update()), (false, true));
}

#[test]
fn blinker_cycles() {
    let mut b = Blinker::new(1, 0, true);
    let mut seen = Vec::new();
    for _ in 0..5 {
        seen.push(b.is_on());
        b.update();
    }
    assert_eq!(seen, vec![true, true, false, true, true]);
    let mut oa = ObjAttr::new();
    oa.x = 3;
    let off = Blinker::new(0, 4, false);
    off.apply_to_object(&mut oa);
    assert_eq!(oa.style, ObjDisplayStyle::NotDisplayed);
    assert_eq!(oa.x, 3);
}

#[test]
fn scroller_wraps_at_512() {
    let mut s = BackgroundScroller::new(300, 5).with_divisor(2);
    s.update();
    assert_eq!(s.offsets(), (0, 0));
    s.update();
    assert_eq!(s.offsets(), (300, 5));
    s.update();
    s.update();
    assert_eq!(s.offsets(), (88, 10));
    let mut fast = BackgroundScroller::new(u16::MAX, 0);
    fast.update();
    assert_eq!(fast.offsets(), (511, 0));
}

#[test]
fn spinner_slows_and_stops() {
    let mut s = Spinner::new(10, 3);
    s.update();
    assert_eq!(s.rotation(), 7);
    s.update();
    s.update();
    assert_eq!(s.rotation(), 7 + 4 + 1);
    assert!(!s.finished());
    s.update();
    assert!(s.finished());
    assert_eq!(s.rotation(), 12);
    s.set_speed(u16::MAX);
    s.update();
    assert_eq!(s.rotation(), 12u16.wrapping_add(u16::MAX - 3));
}

#[test]
fn background_geometry() {
    assert_eq!(BackgroundSize::Bg64x64.required_screenblocks(), 4);
    assert_eq!(BackgroundSize::Bg64x32.screenblock_width(), 2);
    assert_eq!(BackgroundSize::Bg64x32.screenblock_height(), 1);
    assert_eq!(BackgroundSize::Bg32x64.required_screenblocks(), 2);
    assert_eq!(BackgroundSize::Bg32x64.size_bits(), 2);
    assert_eq!(BackgroundLayer::Bg0.get_priority(), 3);
    assert_eq!(BackgroundLayer::Bg3.get_priority(), 0);
    assert_eq!(BackgroundLayer::Bg2.enable(0x0001), 0x0401);
    assert_eq!(BackgroundLayer::Bg1.disable(0xFFFF), 0xFDFF);
}

#[test]
fn audio_values() {
    let v = AudioVolume::new(63);
    assert_eq!(v.get(), 63);
    let _source = AudioSource::new(vec![1, 2, 3], AudioVolume::new(10), true);
    assert_eq!(BlendController::new().blend_weights(3, 4), 3 | (4 << 8));
}

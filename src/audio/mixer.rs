//! Sound sources for the two mixer channels.
use vstd::prelude::*;

use super::music::AUDIO_BUFFER_SIZE;

verus! {

/// Highest volume a source may have.
pub const MAX_VOLUME: u8 = 63;

/// A volume from 0 to 63.
#[derive(Clone, Copy, Debug, PartialEq, Eq, Structural)]
pub struct AudioVolume(u8);

impl AudioVolume {
    pub closed spec fn spec_get(&self) -> u8 {
        self.0
    }

    pub fn new(value: u8) -> (r: Self)
        requires
            value <= MAX_VOLUME,
        ensures
            r.spec_get() == value,
    {
        Self(value)
    }

    pub fn get(&self) -> (r: u8)
        ensures
            r == self.spec_get(),
    {
        self.0
    }
}

/// Samples to play, the position reached, whether to loop, and the volume.
pub struct AudioSource {
    samples: Vec<u8>,
    position: usize,
    is_loop: bool,
    volume: AudioVolume,
}

impl AudioSource {
    pub closed spec fn spec_samples(&self) -> Seq<u8> {
        self.samples@
    }

    pub closed spec fn spec_position(&self) -> usize {
        self.position
    }

    pub closed spec fn spec_is_loop(&self) -> bool {
        self.is_loop
    }

    pub closed spec fn spec_volume(&self) -> AudioVolume {
        self.volume
    }

    /// A source positioned at its first sample.
    pub fn new(samples: Vec<u8>, volume: AudioVolume, is_loop: bool) -> (r: Self)
        ensures
            r.spec_samples() == samples@,
            r.spec_volume() == volume,
            r.spec_is_loop() == is_loop,
            r.spec_position() == 0,
    {
        Self { samples, is_loop, volume, position: 0 }
    }
}

/// A buffer byte read as a signed sample.
pub open spec fn signed(x: u8) -> int {
    if x < 128 { x as int } else { x - 256 }
}

/// A signed sample in `-128..=127` written as a buffer byte.
pub open spec fn unsigned(v: int) -> u8 {
    if v >= 0 { v as u8 } else { (v + 256) as u8 }
}

pub open spec fn clip(v: int) -> int {
    if v < -128 { -128 } else if v > 127 { 127 } else { v }
}

/// `buffered` with `sample` added at `volume` sixty-fourths (rounded down),
/// clipped to the sample range.
pub open spec fn mixed(buffered: u8, sample: u8, volume: u8) -> u8 {
    unsigned(clip(signed(buffered) + (signed(sample) * volume) / 64))
}

/// Mixes one sample into a buffered one.
pub fn mix_sample(buffered: u8, sample: u8, volume: u8) -> (r: u8)
    requires
        volume <= MAX_VOLUME,
    ensures
        r == mixed(buffered, sample, volume),
{
    let s: i32 = if sample < 128 { sample as i32 } else { sample as i32 - 256 };
    let b: i32 = if buffered < 128 { buffered as i32 } else { buffered as i32 - 256 };
    proof {
        assert(-128 * 63 <= s * volume <= 127 * 63) by (nonlinear_arith)
            requires -128 <= s <= 127, 0 <= volume <= 63;
    }
    let p: i32 = s * (volume as i32);
    let scaled: i32 = if p >= 0 {
        p / 64
    } else {
        let mag: i32 = -p;
        let q: i32 = (mag + 63) / 64;
        proof {
            assert(-q == p / 64) by (nonlinear_arith)
                requires mag == -p, p < 0, q == (mag + 63) / 64;
        }
        -q
    };
    let m: i32 = b + scaled;
    let c: i32 = if m < -128 { -128 } else if m > 127 { 127 } else { m };
    if c >= 0 { c as u8 } else { (c + 256) as u8 }
}

/// Sample `k` of the next buffer's worth of `src` from `pos`: past the end
/// a looping source starts over, a finished one gives silence.
pub open spec fn chunk_sample(src: Seq<u8>, pos: int, is_loop: bool, k: int) -> u8 {
    let remaining = src.len() - pos;
    if k < remaining {
        src[pos + k]
    } else if is_loop {
        src[k - remaining]
    } else {
        0
    }
}

/// Where a source stands after one buffer: `None` once a non-looping source
/// has run out.
pub open spec fn next_position(len: int, pos: int, is_loop: bool) -> Option<int> {
    if pos + AUDIO_BUFFER_SIZE > len {
        if is_loop { Some(AUDIO_BUFFER_SIZE - (len - pos)) } else { None }
    } else {
        Some(pos + AUDIO_BUFFER_SIZE)
    }
}

impl AudioSource {
    /// The position lies in the samples, and a looping source holds at
    /// least a buffer's worth.
    pub open spec fn playable(&self) -> bool {
        &&& self.spec_position() <= self.spec_samples().len()
        &&& self.spec_is_loop() ==> self.spec_samples().len() >= AUDIO_BUFFER_SIZE
    }

    /// Takes the next buffer's worth of samples; returns them with the
    /// source as it stands afterwards, `None` once it has run out.
    pub fn next_chunk(self) -> (r: (Vec<u8>, Option<AudioSource>))
        requires
            self.playable(),
        ensures
            r.0@.len() == AUDIO_BUFFER_SIZE,
            forall|k: int| 0 <= k < AUDIO_BUFFER_SIZE ==> #[trigger] r.0@[k] == chunk_sample(
                self.spec_samples(), self.spec_position() as int, self.spec_is_loop(), k),
            r.1 is None <==> next_position(self.spec_samples().len() as int, self.spec_position() as int, self.spec_is_loop()) is None,
            r.1 matches Some(s) ==> {
                &&& s.playable()
                &&& s.spec_samples() == self.spec_samples()
                &&& s.spec_is_loop() == self.spec_is_loop()
                &&& s.spec_volume() == self.spec_volume()
                &&& Some(s.spec_position() as int) == next_position(self.spec_samples().len() as int, self.spec_position() as int, self.spec_is_loop())
            },
    {
        let len = self.samples.len();
        let pos = self.position;
        let mut chunk: Vec<u8> = Vec::new();
        let mut k: usize = 0;
        while k < AUDIO_BUFFER_SIZE
            invariant
                len == self.samples@.len(),
                pos == self.position,
                self.playable(),
                k <= AUDIO_BUFFER_SIZE,
                chunk@.len() == k,
                forall|j: int| 0 <= j < k ==> #[trigger] chunk@[j] == chunk_sample(self.samples@, pos as int, self.is_loop, j),
            decreases AUDIO_BUFFER_SIZE - k,
        {
            let remaining = len - pos;
            let v = if k < remaining {
                self.samples[pos + k]
            } else if self.is_loop {
                self.samples[k - remaining]
            } else {
                0
            };
            chunk.push(v);
            k = k + 1;
        }
        let next = if pos > len || len - pos < AUDIO_BUFFER_SIZE {
            if self.is_loop {
                let mut s = self;
                s.position = AUDIO_BUFFER_SIZE - (len - pos);
                Some(s)
            } else {
                None
            }
        } else {
            let mut s = self;
            s.position = pos + AUDIO_BUFFER_SIZE;
            Some(s)
        };
        (chunk, next)
    }
}

/// Two channels, one for music and one for effects, mixed into the back
/// half of a double buffer while the front half plays.
pub struct AudioMixer {
    channel_1: Option<AudioSource>,
    channel_2: Option<AudioSource>,
    audio_buffers: Vec<u8>,
    playing_second_buffer: bool,
}

/// Sample `k` of channel `c` mixed into `buffered`; unchanged without a channel.
pub open spec fn mix_channel(buffered: u8, c: Option<AudioSource>, k: int) -> u8 {
    match c {
        None => buffered,
        Some(s) => mixed(
            buffered,
            chunk_sample(s.spec_samples(), s.spec_position() as int, s.spec_is_loop(), k),
            s.spec_volume().spec_get(),
        ),
    }
}

/// `after` is channel `before` once one buffer has been taken from it:
/// none stays none, a finished source is dropped, any other moves on.
pub open spec fn channel_after(before: Option<AudioSource>, after: Option<AudioSource>) -> bool {
    match before {
        None => after is None,
        Some(b) => match next_position(b.spec_samples().len() as int, b.spec_position() as int, b.spec_is_loop()) {
            None => after is None,
            Some(p) => after matches Some(a) && a.spec_samples() == b.spec_samples() && a.spec_is_loop() == b.spec_is_loop()
                && a.spec_volume() == b.spec_volume() && a.spec_position() == p,
        },
    }
}

impl AudioMixer {
    pub closed spec fn spec_buffers(&self) -> Seq<u8> {
        self.audio_buffers@
    }

    pub closed spec fn spec_playing_second(&self) -> bool {
        self.playing_second_buffer
    }

    pub closed spec fn spec_channel_1(&self) -> Option<AudioSource> {
        self.channel_1
    }

    pub closed spec fn spec_channel_2(&self) -> Option<AudioSource> {
        self.channel_2
    }

    /// Where the half being filled starts: the half not playing.
    pub open spec fn back_offset(&self) -> int {
        if self.spec_playing_second() { 0 } else { AUDIO_BUFFER_SIZE as int }
    }

    pub closed spec fn wf(&self) -> bool {
        &&& self.audio_buffers@.len() == 2 * AUDIO_BUFFER_SIZE
        &&& self.channel_1 matches Some(s) ==> s.playable() && s.spec_volume().spec_get() <= MAX_VOLUME
        &&& self.channel_2 matches Some(s) ==> s.playable() && s.spec_volume().spec_get() <= MAX_VOLUME
    }

    /// A silent mixer with no channels, playing the first half.
    pub fn new() -> (r: Self)
        ensures
            r.wf(),
            r.spec_buffers() == Seq::new(2 * AUDIO_BUFFER_SIZE as nat, |i: int| 0u8),
            !r.spec_playing_second(),
            r.spec_channel_1() is None,
            r.spec_channel_2() is None,
    {
        let mut audio_buffers: Vec<u8> = Vec::new();
        let mut i: usize = 0;
        while i < 2 * AUDIO_BUFFER_SIZE
            invariant
                i <= 2 * AUDIO_BUFFER_SIZE,
                audio_buffers@ == Seq::new(i as nat, |j: int| 0u8),
            decreases 2 * AUDIO_BUFFER_SIZE - i,
        {
            audio_buffers.push(0);
            i = i + 1;
            assert(audio_buffers@ =~= Seq::new(i as nat, |j: int| 0u8));
        }
        Self { channel_1: None, channel_2: None, audio_buffers, playing_second_buffer: false }
    }

    pub fn set_channel_1(&mut self, source: AudioSource)
        requires
            old(self).wf(),
            source.playable(),
            source.spec_volume().spec_get() <= MAX_VOLUME,
        ensures
            final(self).wf(),
            final(self).spec_channel_1() == Some(source),
            final(self).spec_channel_2() == old(self).spec_channel_2(),
            final(self).spec_buffers() == old(self).spec_buffers(),
            final(self).spec_playing_second() == old(self).spec_playing_second(),
    {
        self.channel_1 = Some(source);
    }

    pub fn set_channel_2(&mut self, source: AudioSource)
        requires
            old(self).wf(),
            source.playable(),
            source.spec_volume().spec_get() <= MAX_VOLUME,
        ensures
            final(self).wf(),
            final(self).spec_channel_2() == Some(source),
            final(self).spec_channel_1() == old(self).spec_channel_1(),
            final(self).spec_buffers() == old(self).spec_buffers(),
            final(self).spec_playing_second() == old(self).spec_playing_second(),
    {
        self.channel_2 = Some(source);
    }

    /// Switches the half being played and silences the new back half.
    /// Returns whether playback wraps to the first half, where the
    /// transfer must be restarted.
    pub fn swap_buffers(&mut self) -> (restart: bool)
        requires
            old(self).wf(),
        ensures
            final(self).wf(),
            restart == old(self).spec_playing_second(),
            final(self).spec_playing_second() == !old(self).spec_playing_second(),
            final(self).spec_channel_1() == old(self).spec_channel_1(),
            final(self).spec_channel_2() == old(self).spec_channel_2(),
            forall|i: int| 0 <= i < 2 * AUDIO_BUFFER_SIZE ==> #[trigger] final(self).spec_buffers()[i] == if final(self).back_offset() <= i < final(self).back_offset() + AUDIO_BUFFER_SIZE {
                0u8
            } else {
                old(self).spec_buffers()[i]
            },
    {
        let restart = self.playing_second_buffer;
        self.playing_second_buffer = !self.playing_second_buffer;
        let offset: usize = if self.playing_second_buffer { 0 } else { AUDIO_BUFFER_SIZE };
        let mut k: usize = 0;
        while k < AUDIO_BUFFER_SIZE
            invariant
                self.audio_buffers@.len() == 2 * AUDIO_BUFFER_SIZE,
                self.playing_second_buffer == !old(self).playing_second_buffer,
                self.channel_1 == old(self).channel_1,
                self.channel_2 == old(self).channel_2,
                offset == (if self.playing_second_buffer { 0int } else { AUDIO_BUFFER_SIZE as int }),
                k <= AUDIO_BUFFER_SIZE,
                forall|i: int| 0 <= i < 2 * AUDIO_BUFFER_SIZE ==> #[trigger] self.audio_buffers@[i] == if offset <= i < offset + k {
                    0u8
                } else {
                    old(self).audio_buffers@[i]
                },
            decreases AUDIO_BUFFER_SIZE - k,
        {
            self.audio_buffers.set(offset + k, 0);
            k = k + 1;
        }
        restart
    }

    /// Mixes `chunk` at `volume` into the back half.
    fn mix_into_back(&mut self, chunk: &Vec<u8>, volume: u8)
        requires
            old(self).wf(),
            chunk@.len() == AUDIO_BUFFER_SIZE,
            volume <= MAX_VOLUME,
        ensures
            final(self).wf(),
            final(self).spec_playing_second() == old(self).spec_playing_second(),
            final(self).spec_channel_1() == old(self).spec_channel_1(),
            final(self).spec_channel_2() == old(self).spec_channel_2(),
            forall|i: int| 0 <= i < 2 * AUDIO_BUFFER_SIZE ==> #[trigger] final(self).spec_buffers()[i] == if old(self).back_offset() <= i < old(self).back_offset() + AUDIO_BUFFER_SIZE {
                mixed(old(self).spec_buffers()[i], chunk@[i - old(self).back_offset()], volume)
            } else {
                old(self).spec_buffers()[i]
            },
    {
        let offset: usize = if self.playing_second_buffer { 0 } else { AUDIO_BUFFER_SIZE };
        let mut k: usize = 0;
        while k < AUDIO_BUFFER_SIZE
            invariant
                self.audio_buffers@.len() == 2 * AUDIO_BUFFER_SIZE,
                self.playing_second_buffer == old(self).playing_second_buffer,
                self.channel_1 == old(self).channel_1,
                self.channel_2 == old(self).channel_2,
                chunk@.len() == AUDIO_BUFFER_SIZE,
                volume <= MAX_VOLUME,
                offset == old(self).back_offset(),
                k <= AUDIO_BUFFER_SIZE,
                forall|i: int| 0 <= i < 2 * AUDIO_BUFFER_SIZE ==> #[trigger] self.audio_buffers@[i] == if offset <= i < offset + k {
                    mixed(old(self).audio_buffers@[i], chunk@[i - offset], volume)
                } else {
                    old(self).audio_buffers@[i]
                },
            decreases AUDIO_BUFFER_SIZE - k,
        {
            let b = self.audio_buffers[offset + k];
            let m = mix_sample(b, chunk[k], volume);
            self.audio_buffers.set(offset + k, m);
            k = k + 1;
        }
    }

    /// Mixes the next buffer's worth of each channel, first then second,
    /// into the back half; a non-looping channel that runs out is dropped.
    pub fn fill_next_buffer(&mut self)
        requires
            old(self).wf(),
        ensures
            final(self).wf(),
            final(self).spec_playing_second() == old(self).spec_playing_second(),
            forall|i: int| 0 <= i < 2 * AUDIO_BUFFER_SIZE ==> #[trigger] final(self).spec_buffers()[i] == if old(self).back_offset() <= i < old(self).back_offset() + AUDIO_BUFFER_SIZE {
                mix_channel(
                    mix_channel(old(self).spec_buffers()[i], old(self).spec_channel_1(), i - old(self).back_offset()),
                    old(self).spec_channel_2(),
                    i - old(self).back_offset(),
                )
            } else {
                old(self).spec_buffers()[i]
            },
            channel_after(old(self).spec_channel_1(), final(self).spec_channel_1()),
            channel_after(old(self).spec_channel_2(), final(self).spec_channel_2()),
    {
        let ghost b0 = self.spec_buffers();
        let ghost off = self.back_offset();
        let ghost c1 = self.channel_1;
        let ghost c2 = self.channel_2;
        match self.channel_1.take() {
            Some(source) => {
                let volume = source.volume.get();
                let (chunk, next) = source.next_chunk();
                assert(self.spec_buffers() == b0);
                self.mix_into_back(&chunk, volume);
                let ghost mid = self.spec_buffers();
                assert forall|i: int| 0 <= i < 2 * AUDIO_BUFFER_SIZE implies #[trigger] mid[i] == if off <= i < off + AUDIO_BUFFER_SIZE {
                    mix_channel(b0[i], c1, i - off)
                } else {
                    b0[i]
                } by {
                    if off <= i < off + AUDIO_BUFFER_SIZE {
                        assert(chunk@[i - off] == chunk_sample(source.spec_samples(), source.spec_position() as int, source.spec_is_loop(), i - off));
                    }
                }
                self.channel_1 = next;
                assert(self.spec_buffers() == mid);
            },
            None => {},
        }
        let ghost b1 = self.spec_buffers();
        match self.channel_2.take() {
            Some(source) => {
                let volume = source.volume.get();
                let (chunk, next) = source.next_chunk();
                assert(self.spec_buffers() == b1);
                self.mix_into_back(&chunk, volume);
                let ghost mid = self.spec_buffers();
                assert forall|i: int| 0 <= i < 2 * AUDIO_BUFFER_SIZE implies #[trigger] mid[i] == if off <= i < off + AUDIO_BUFFER_SIZE {
                    mix_channel(b1[i], c2, i - off)
                } else {
                    b1[i]
                } by {
                    if off <= i < off + AUDIO_BUFFER_SIZE {
                        assert(chunk@[i - off] == chunk_sample(source.spec_samples(), source.spec_position() as int, source.spec_is_loop(), i - off));
                    }
                }
                self.channel_2 = next;
                assert(self.spec_buffers() == mid);
            },
            None => {},
        }
    }

    /// Both halves, the first then the second, for the transfer to read.
    pub fn audio_buffers(&self) -> (r: &Vec<u8>)
        ensures
            r@ == self.spec_buffers(),
    {
        &self.audio_buffers
    }
}

} // verus!

//! Background music: a looping sample source streamed through a double
//! buffer, one half played while the other is filled.
use vstd::prelude::*;

verus! {

/// Samples in each half of the double buffer.
pub const AUDIO_BUFFER_SIZE: usize = 304;

pub struct MusicPlayer {
    audio_buffers: Vec<u8>,
    playing_second_buffer: bool,
    music_source: Vec<u8>,
    source_position: usize,
}

impl MusicPlayer {
    /// Both halves, the first then the second.
    pub closed spec fn spec_buffers(&self) -> Seq<u8> {
        self.audio_buffers@
    }

    pub closed spec fn spec_playing_second(&self) -> bool {
        self.playing_second_buffer
    }

    pub closed spec fn spec_source(&self) -> Seq<u8> {
        self.music_source@
    }

    /// Index of the next source sample to buffer.
    pub closed spec fn spec_position(&self) -> int {
        self.source_position as int
    }

    pub closed spec fn wf(&self) -> bool {
        &&& self.audio_buffers@.len() == 2 * AUDIO_BUFFER_SIZE
        &&& self.music_source@.len() >= AUDIO_BUFFER_SIZE
        &&& self.source_position <= self.music_source@.len()
    }

    /// Where the half being filled starts: the half not playing.
    pub open spec fn back_offset(&self) -> int {
        if self.spec_playing_second() { 0 } else { AUDIO_BUFFER_SIZE as int }
    }

    /// A player of `music_source`, silent, playing the first half.
    pub fn take(music_source: Vec<u8>) -> (r: Self)
        requires
            music_source@.len() >= AUDIO_BUFFER_SIZE,
        ensures
            r.wf(),
            r.spec_buffers() == Seq::new(2 * AUDIO_BUFFER_SIZE as nat, |i: int| 0u8),
            !r.spec_playing_second(),
            r.spec_source() == music_source@,
            r.spec_position() == 0,
    {
        let mut audio_buffers: Vec<u8> = Vec::new();
        let mut i: usize = 0;
        while i < 2 * AUDIO_BUFFER_SIZE
            invariant
                i <= 2 * AUDIO_BUFFER_SIZE,
                audio_buffers@ == Seq::new(i as nat, |j: int| 0u8),
            decreases 2 * AUDIO_BUFFER_SIZE - i,
        {
            audio_buffers.push(0);
            i = i + 1;
            assert(audio_buffers@ =~= Seq::new(i as nat, |j: int| 0u8));
        }
        Self { audio_buffers, playing_second_buffer: false, music_source, source_position: 0 }
    }

    /// Switches the half being played. Returns whether playback wraps to
    /// the first half, where the transfer must be restarted.
    pub fn swap_buffers(&mut self) -> (restart: bool)
        requires
            old(self).wf(),
        ensures
            final(self).wf(),
            restart == old(self).spec_playing_second(),
            final(self).spec_playing_second() == !old(self).spec_playing_second(),
            final(self).spec_buffers() == old(self).spec_buffers(),
            final(self).spec_source() == old(self).spec_source(),
            final(self).spec_position() == old(self).spec_position(),
    {
        let restart = self.playing_second_buffer;
        self.playing_second_buffer = !self.playing_second_buffer;
        restart
    }

    /// Fills the half not playing with the next samples of the source,
    /// wrapping to its start, and moves the position past them.
    pub fn fill_next_buffer(&mut self)
        requires
            old(self).wf(),
        ensures
            final(self).wf(),
            final(self).spec_playing_second() == old(self).spec_playing_second(),
            final(self).spec_source() == old(self).spec_source(),
            forall|k: int| 0 <= k < AUDIO_BUFFER_SIZE ==> #[trigger] final(self).spec_buffers()[old(self).back_offset() + k]
                == old(self).spec_source()[(old(self).spec_position() + k) % (old(self).spec_source().len() as int)],
            forall|i: int| 0 <= i < 2 * AUDIO_BUFFER_SIZE && !(old(self).back_offset() <= i < old(self).back_offset() + AUDIO_BUFFER_SIZE)
                ==> #[trigger] final(self).spec_buffers()[i] == old(self).spec_buffers()[i],
            final(self).spec_position() == if old(self).spec_position() + AUDIO_BUFFER_SIZE > old(self).spec_source().len() {
                old(self).spec_position() + AUDIO_BUFFER_SIZE - old(self).spec_source().len()
            } else {
                old(self).spec_position() + AUDIO_BUFFER_SIZE
            },
    {
        let offset: usize = if self.playing_second_buffer { 0 } else { AUDIO_BUFFER_SIZE };
        let len = self.music_source.len();
        let ghost pos0 = self.source_position as int;
        let mut idx: usize = if self.source_position == len { 0 } else { self.source_position };
        proof {
            vstd::arithmetic::div_mod::lemma_small_mod(idx as nat, len as nat);
            if pos0 == len {
                vstd::arithmetic::div_mod::lemma_mod_self_0(len as int);
            }
        }
        let mut k: usize = 0;
        while k < AUDIO_BUFFER_SIZE
            invariant
                len == self.music_source@.len(),
                len >= AUDIO_BUFFER_SIZE,
                self.music_source@ == old(self).music_source@,
                self.audio_buffers@.len() == 2 * AUDIO_BUFFER_SIZE,
                self.playing_second_buffer == old(self).playing_second_buffer,
                self.source_position == old(self).source_position,
                offset == old(self).back_offset(),
                pos0 == old(self).spec_position(),
                k <= AUDIO_BUFFER_SIZE,
                idx < len,
                idx == (pos0 + k) % (len as int),
                forall|j: int| 0 <= j < k ==> #[trigger] self.audio_buffers@[offset + j]
                    == self.music_source@[(pos0 + j) % (len as int)],
                forall|i: int| 0 <= i < 2 * AUDIO_BUFFER_SIZE && !(offset <= i < offset + k)
                    ==> #[trigger] self.audio_buffers@[i] == old(self).audio_buffers@[i],
            decreases AUDIO_BUFFER_SIZE - k,
        {
            let sample = self.music_source[idx];
            self.audio_buffers.set(offset + k, sample);
            proof {
                vstd::arithmetic::div_mod::lemma_add_mod_noop(pos0 + k, 1, len as int);
                vstd::arithmetic::div_mod::lemma_small_mod(1, len as nat);
            }
            idx = if idx + 1 == len { 0 } else { idx + 1 };
            proof {
                if idx == 0 {
                    vstd::arithmetic::div_mod::lemma_mod_self_0(len as int);
                } else {
                    vstd::arithmetic::div_mod::lemma_small_mod(idx as nat, len as nat);
                }
            }
            k = k + 1;
        }
        self.source_position = if self.source_position > len - AUDIO_BUFFER_SIZE {
            self.source_position - (len - AUDIO_BUFFER_SIZE)
        } else {
            self.source_position + AUDIO_BUFFER_SIZE
        };
    }

    /// Both halves, the first then the second, for the transfer to read.
    pub fn audio_buffers(&self) -> (r: &Vec<u8>)
        ensures
            r@ == self.spec_buffers(),
    {
        &self.audio_buffers
    }
}

} // verus!

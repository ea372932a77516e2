//! The voice pool: a fixed number of playback voices handed out in
//! round-robin order.

use vstd::prelude::*;
use vstd::arithmetic::div_mod::lemma_add_mod_noop;
use vstd::arithmetic::div_mod::lemma_small_mod;

verus! {

/// A sound assigned to a voice, as a mathematical value.
pub struct PlaybackView {
    pub voice: nat,
    pub sound_data: Seq<u8>,
}

/// A pool of voices, as a mathematical value: how many voices it has and
/// which of them the next sound goes to.
pub struct PoolView {
    pub voices: nat,
    pub cursor: nat,
}

impl PoolView {
    /// The cursor names one of the voices.
    pub open spec fn wf(self) -> bool {
        self.cursor < self.voices
    }

    /// A pool of `voices` voices that has not played anything yet.
    pub open spec fn fresh(voices: nat) -> PoolView {
        PoolView { voices, cursor: 0 }
    }

    /// The pool after one sound was handed to the voice under the cursor.
    pub open spec fn advanced(self) -> PoolView {
        PoolView { voices: self.voices, cursor: ((self.cursor + 1) % self.voices) as nat }
    }

    /// Hands `sound_data` to the voice under the cursor: the pool afterwards,
    /// and the assignment made.
    pub open spec fn dispatch(self, sound_data: Seq<u8>) -> (PoolView, PlaybackView) {
        (self.advanced(), PlaybackView { voice: self.cursor, sound_data })
    }

    /// The pool after the first `count` sounds of `sounds` were dispatched in order.
    pub open spec fn after(self, sounds: Seq<Seq<u8>>, count: nat) -> PoolView
        decreases count,
    {
        if count == 0 {
            self
        } else {
            self.after(sounds, (count - 1) as nat).dispatch(sounds[count - 1]).0
        }
    }

    /// The assignment that the sound at `index` of `sounds` receives when
    /// `sounds` are dispatched in order.
    pub open spec fn assignment(self, sounds: Seq<Seq<u8>>, index: nat) -> PlaybackView {
        self.after(sounds, index).dispatch(sounds[index as int]).1
    }
}

/// A sound that has been assigned to a voice and is to be rendered there.
#[derive(Debug, PartialEq, Eq)]
pub struct Playback {
    /// Index of the voice, counted from zero.
    pub voice: usize,
    /// The encoded audio to decode and queue on that voice.
    pub sound_data: Vec<u8>,
}

impl View for Playback {
    type V = PlaybackView;

    open spec fn view(&self) -> PlaybackView {
        PlaybackView { voice: self.voice as nat, sound_data: self.sound_data@ }
    }
}

/// A fixed number of voices and the cursor that walks over them.
#[derive(Debug)]
pub struct SoundPool {
    voices: usize,
    current_index: usize,
}

impl View for SoundPool {
    type V = PoolView;

    closed spec fn view(&self) -> PoolView {
        PoolView { voices: self.voices as nat, cursor: self.current_index as nat }
    }
}

impl SoundPool {
    /// The cursor names one of the voices.
    pub open spec fn wf(&self) -> bool {
        self@.wf()
    }

    /// A pool of `pool_size` voices with the cursor on the first of them.
    pub fn new(pool_size: usize) -> (pool: SoundPool)
        requires
            pool_size > 0,
        ensures
            pool.wf(),
            pool@ == PoolView::fresh(pool_size as nat),
    {
        SoundPool { voices: pool_size, current_index: 0 }
    }

    /// The number of voices.
    pub fn pool_size(&self) -> (size: usize)
        ensures
            size == self@.voices,
    {
        self.voices
    }

    /// The index of the voice that the next sound goes to.
    pub fn current_index(&self) -> (index: usize)
        ensures
            index == self@.cursor,
    {
        self.current_index
    }

    /// Assigns `sound_data` to the voice under the cursor and moves the cursor
    /// to the next voice, wrapping after the last. The assignment never
    /// depends on what the bytes hold.
    pub fn play_sound(&mut self, sound_data: Vec<u8>) -> (playback: Playback)
        requires
            old(self).wf(),
        ensures
            final(self).wf(),
            (final(self)@, playback@) == old(self)@.dispatch(sound_data@),
    {
        let voice = self.current_index;
        self.current_index = (self.current_index + 1) % self.voices;
        Playback { voice, sound_data }
    }
}

/// Dispatching keeps a pool well formed and never changes its size.
pub proof fn lemma_dispatch_preserves_wf(pool: PoolView, sound_data: Seq<u8>)
    requires
        pool.wf(),
    ensures
        pool.dispatch(sound_data).0.wf(),
        pool.dispatch(sound_data).0.voices == pool.voices,
{
}

/// After `count` dispatches a fresh pool of `voices` voices has its cursor
/// on voice `count mod voices`, whatever was dispatched.
pub proof fn lemma_cursor_after(voices: nat, sounds: Seq<Seq<u8>>, count: nat)
    requires
        voices > 0,
    ensures
        PoolView::fresh(voices).after(sounds, count) == (PoolView {
            voices,
            cursor: (count % voices) as nat,
        }),
    decreases count,
{
    if count == 0 {
        lemma_small_mod(0, voices);
    } else {
        let before = (count - 1) as nat;
        lemma_cursor_after(voices, sounds, before);
        lemma_add_mod_noop(before as int, 1, voices as int);
        if voices > 1 {
            lemma_small_mod(1, voices);
        }
    }
}

/// Round-robin assignment: when a fresh pool of `voices` voices is handed the
/// sounds of `sounds` one after another, the sound at position `index`
/// (counted from zero) goes to voice `index mod voices` and is passed on
/// unchanged, whatever any of the sounds holds and whether or not it will
/// decode.
pub proof fn lemma_round_robin(voices: nat, sounds: Seq<Seq<u8>>, index: nat)
    requires
        voices > 0,
        index < sounds.len(),
    ensures
        PoolView::fresh(voices).assignment(sounds, index) == (PlaybackView {
            voice: (index % voices) as nat,
            sound_data: sounds[index as int],
        }),
{
    lemma_cursor_after(voices, sounds, index);
}

/// The voice that a sound is assigned to depends only on its position in
/// the sequence: two runs on the same pool that differ in the bytes
/// dispatched make the same assignments of voices.
pub proof fn lemma_voice_independent_of_data(
    pool: PoolView,
    first: Seq<Seq<u8>>,
    second: Seq<Seq<u8>>,
    index: nat,
)
    ensures
        pool.after(first, index) == pool.after(second, index),
        pool.assignment(first, index).voice == pool.assignment(second, index).voice,
    decreases index,
{
    if index > 0 {
        lemma_voice_independent_of_data(pool, first, second, (index - 1) as nat);
    }
}

} // verus!

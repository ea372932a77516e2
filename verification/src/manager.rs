//! The playback engine: resolves a logical sound key to a loaded sample,
//! falling back to a random one, and hands it to the voice pool.

use rand::Rng;
use vstd::prelude::*;
use crate::pool::Playback;
use crate::pool::PlaybackView;
use crate::pool::PoolView;
use crate::pool::SoundPool;
use crate::store::SampleStore;
use crate::store::StoreView;

verus! {

/// The number of voices of the engine's pool.
pub const POOL_SIZE: usize = 8;

/// The engine as a mathematical value.
pub struct ManagerView {
    pub store: StoreView,
    pub pool: PoolView,
}

impl ManagerView {
    /// Store and pool are both well formed.
    pub open spec fn wf(self) -> bool {
        self.store.wf() && self.pool.wf()
    }

    /// Plays `sample` on the voice under the cursor: the engine afterwards,
    /// and the assignment made. The store is never touched.
    pub open spec fn play(self, sample: Seq<u8>) -> (ManagerView, PlaybackView) {
        let (pool, playback) = self.pool.dispatch(sample);
        (ManagerView { store: self.store, pool }, playback)
    }

    /// Plays the sample of the id at position `index` of the loaded ids.
    pub open spec fn play_at(self, index: int) -> (ManagerView, PlaybackView) {
        self.play(self.store.samples[self.store.ids[index]])
    }

    /// What a fallback may do: nothing on an empty store, and else play the
    /// sample of one of the loaded ids.
    pub open spec fn falls_back(self, after: ManagerView, played: Option<PlaybackView>) -> bool {
        if self.store.ids.len() == 0 {
            played is None && after == self
        } else {
            played is Some && exists|index: int|
                0 <= index < self.store.ids.len() && (after, played.unwrap())
                    == #[trigger] self.play_at(index)
        }
    }

    /// What resolving `sound_key` may do: play its sample where one is
    /// loaded, and else fall back.
    pub open spec fn resolves(
        self,
        sound_key: Seq<char>,
        after: ManagerView,
        played: Option<PlaybackView>,
    ) -> bool {
        if self.store.samples.contains_key(sound_key) {
            played is Some && (after, played.unwrap()) == self.play(self.store.samples[sound_key])
        } else {
            self.falls_back(after, played)
        }
    }
}

/// The view of an assignment that may not have been made.
pub open spec fn played_view(played: Option<Playback>) -> Option<PlaybackView> {
    match played {
        Some(playback) => Some(playback@),
        None => None,
    }
}

/// The playback engine: the loaded samples and the pool of voices.
pub struct SoundManager {
    sounds: SampleStore,
    sound_pool: SoundPool,
}

impl View for SoundManager {
    type V = ManagerView;

    closed spec fn view(&self) -> ManagerView {
        ManagerView { store: self.sounds@, pool: self.sound_pool@ }
    }
}

impl SoundManager {
    /// Store and pool are both well formed.
    pub open spec fn wf(&self) -> bool {
        self@.wf()
    }

    /// An engine over `sounds` with a fresh pool of `POOL_SIZE` voices.
    pub fn new(sounds: SampleStore) -> (manager: SoundManager)
        requires
            sounds.wf(),
        ensures
            manager.wf(),
            manager@ == (ManagerView { store: sounds@, pool: PoolView::fresh(POOL_SIZE as nat) }),
    {
        SoundManager { sounds, sound_pool: SoundPool::new(POOL_SIZE) }
    }

    /// The loaded samples.
    pub fn sounds(&self) -> (sounds: &SampleStore)
        ensures
            sounds@ == self@.store,
    {
        &self.sounds
    }

    /// The pool of voices.
    pub fn sound_pool(&self) -> (pool: &SoundPool)
        ensures
            pool@ == self@.pool,
    {
        &self.sound_pool
    }

    /// Plays the sample of the id at position `index` of the loaded ids.
    /// Every listed id has a sample, so this always plays.
    pub fn play_sound_at(&mut self, index: usize) -> (played: Option<Playback>)
        requires
            old(self).wf(),
            index < old(self)@.store.ids.len(),
        ensures
            final(self).wf(),
            final(self)@.store == old(self)@.store,
            played is Some,
            (final(self)@, played.unwrap()@) == old(self)@.play_at(index as int),
    {
        let id = self.sounds.id_at(index);
        match self.sounds.get(id.as_str()) {
            Some(sound_data) => {
                let sound_data = sound_data.clone();
                Some(self.sound_pool.play_sound(sound_data))
            },
            None => None,
        }
    }

    /// Plays the sample of a loaded id drawn at random, each with the same
    /// chance. Does nothing where no sample is loaded.
    pub fn play_random_sound(&mut self) -> (played: Option<Playback>)
        requires
            old(self).wf(),
        ensures
            final(self).wf(),
            final(self)@.store == old(self)@.store,
            old(self)@.falls_back(final(self)@, played_view(played)),
            played is None <==> old(self)@.store.ids.len() == 0,
            played is None ==> final(self)@ == old(self)@,
    {
        if self.sounds.is_empty() {
            return None;
        }
        let index = random_index(self.sounds.len());
        self.play_sound_at(index)
    }

    /// Plays the sample loaded under `sound_key`; where there is none, a
    /// random loaded sample; where nothing is loaded, nothing.
    pub fn play_sound_by_key(&mut self, sound_key: &str) -> (played: Option<Playback>)
        requires
            old(self).wf(),
        ensures
            final(self).wf(),
            final(self)@.store == old(self)@.store,
            old(self)@.resolves(sound_key@, final(self)@, played_view(played)),
            played is None <==> old(self)@.store.ids.len() == 0,
            played is None ==> final(self)@ == old(self)@,
    {
        match self.sounds.get(sound_key) {
            Some(sound_data) => {
                let sound_data = sound_data.clone();
                Some(self.sound_pool.play_sound(sound_data))
            },
            None => self.play_random_sound(),
        }
    }
}

/// Whatever is played is a loaded sample, goes to the voice under the
/// cursor, and moves the cursor on by one; the store stays as it is.
pub open spec fn plays_loaded_sample(
    before: ManagerView,
    after: ManagerView,
    playback: PlaybackView,
) -> bool {
    &&& exists|id: Seq<char>| #[trigger]
        before.store.samples.contains_key(id) && playback.sound_data == before.store.samples[id]
    &&& playback.voice == before.pool.cursor
    &&& after.pool == before.pool.advanced()
    &&& after.store == before.store
}

/// A key without a sample of its own, on a store that is not empty, always
/// plays one of the loaded samples: the fallback never does nothing there.
pub proof fn lemma_unknown_key_plays_loaded_sample(
    before: ManagerView,
    sound_key: Seq<char>,
    after: ManagerView,
    played: Option<PlaybackView>,
)
    requires
        before.wf(),
        before.resolves(sound_key, after, played),
        !before.store.samples.contains_key(sound_key),
        before.store.ids.len() > 0,
    ensures
        played is Some,
        plays_loaded_sample(before, after, played.unwrap()),
{
}

/// A key with a sample of its own always plays that sample.
pub proof fn lemma_known_key_plays_its_sample(
    before: ManagerView,
    sound_key: Seq<char>,
    after: ManagerView,
    played: Option<PlaybackView>,
)
    requires
        before.wf(),
        before.resolves(sound_key, after, played),
        before.store.samples.contains_key(sound_key),
    ensures
        played is Some,
        played.unwrap().sound_data == before.store.samples[sound_key],
        plays_loaded_sample(before, after, played.unwrap()),
{
}

/// On an empty store no key plays anything, and the engine stays as it is.
pub proof fn lemma_empty_store_plays_nothing(
    before: ManagerView,
    sound_key: Seq<char>,
    after: ManagerView,
    played: Option<PlaybackView>,
)
    requires
        before.wf(),
        before.resolves(sound_key, after, played),
        before.store.ids.len() == 0,
    ensures
        played is None,
        after == before,
{
}

/// Draws an index below `len` with `rand::Rng::gen_range` on the generator
/// of the calling thread (`rand::thread_rng`). The range `0..len` must not be
/// empty, or `gen_range` panics. All that is claimed of the outcome is that
/// it lies in the range: two calls may differ, and that each index is as
/// likely as any other is `rand`'s promise, which no contract here states.
/// Where the system's random source cannot seed the generator, `thread_rng`
/// panics; no argument decides that.
#[verifier::external_body]
fn random_index(len: usize) -> (index: usize)
    requires
        len > 0,
    ensures
        index < len,
{
    rand::thread_rng().gen_range(0..len)
}

} // verus!

//! The sample store: the loaded sound samples by logical id, and the ids in
//! the order in which they were loaded.

use vstd::prelude::*;
use vstd::hash_map::StringHashMap;

verus! {

/// A sample store as a mathematical value.
pub struct StoreView {
    /// The encoded audio of every loaded sample, by logical id.
    pub samples: Map<Seq<char>, Seq<u8>>,
    /// The loaded ids, each once, in the order in which they were first loaded.
    pub ids: Seq<Seq<char>>,
}

impl StoreView {
    /// `ids` lists exactly the ids that have a sample, each once.
    pub open spec fn wf(self) -> bool {
        &&& self.ids.no_duplicates()
        &&& forall|i: int| 0 <= i < self.ids.len() ==> self.samples.contains_key(#[trigger] self.ids[i])
        &&& forall|id: Seq<char>| #[trigger] self.samples.contains_key(id) ==> self.ids.contains(id)
    }

    /// The store that holds nothing.
    pub open spec fn empty() -> StoreView {
        StoreView { samples: Map::empty(), ids: Seq::empty() }
    }

    /// The store after `sample` was loaded under `id`: a new id goes to the
    /// end of `ids`, a known id keeps its place and gets the new sample.
    pub open spec fn insert(self, id: Seq<char>, sample: Seq<u8>) -> StoreView {
        StoreView {
            samples: self.samples.insert(id, sample),
            ids: if self.samples.contains_key(id) {
                self.ids
            } else {
                self.ids.push(id)
            },
        }
    }
}

/// The loaded samples. Built once at startup and only read afterwards.
pub struct SampleStore {
    sounds: StringHashMap<Vec<u8>>,
    available_sounds: Vec<String>,
}

impl View for SampleStore {
    type V = StoreView;

    closed spec fn view(&self) -> StoreView {
        StoreView {
            samples: self.sounds@.map_values(|sample: Vec<u8>| sample@),
            ids: self.available_sounds@.map_values(|id: String| id@),
        }
    }
}

impl SampleStore {
    /// The list of ids and the table of samples agree.
    pub open spec fn wf(&self) -> bool {
        self@.wf()
    }

    /// A store that holds nothing.
    pub fn new() -> (store: SampleStore)
        ensures
            store.wf(),
            store@ == StoreView::empty(),
    {
        let store = SampleStore { sounds: StringHashMap::new(), available_sounds: Vec::new() };
        assert(store@.samples =~= Map::empty());
        assert(store@.ids =~= Seq::empty());
        store
    }

    /// Loads `sample` under `id`, in place of an earlier sample of that id if
    /// there is one.
    pub fn insert(&mut self, id: String, sample: Vec<u8>)
        requires
            old(self).wf(),
        ensures
            final(self).wf(),
            final(self)@ == old(self)@.insert(id@, sample@),
    {
        let known = self.sounds.contains_key(id.as_str());
        if !known {
            self.available_sounds.push(id.clone());
        }
        self.sounds.insert(id, sample);
        proof {
            let before = old(self)@;
            let after = self@;
            assert(after.samples =~= before.samples.insert(id@, sample@));
            assert(after.ids =~= before.insert(id@, sample@).ids);
            lemma_insert_preserves_wf(before, id@, sample@);
        }
    }

    /// The sample loaded under `id`, if there is one.
    pub fn get(&self, id: &str) -> (sample: Option<&Vec<u8>>)
        ensures
            match sample {
                Some(data) => self@.samples.contains_key(id@) && data@ == self@.samples[id@],
                None => !self@.samples.contains_key(id@),
            },
    {
        self.sounds.get(id)
    }

    /// Whether a sample is loaded under `id`.
    pub fn contains(&self, id: &str) -> (known: bool)
        ensures
            known == self@.samples.contains_key(id@),
    {
        self.sounds.contains_key(id)
    }

    /// The number of loaded ids.
    pub fn len(&self) -> (count: usize)
        ensures
            count == self@.ids.len(),
    {
        self.available_sounds.len()
    }

    /// Whether nothing is loaded.
    pub fn is_empty(&self) -> (empty: bool)
        ensures
            empty == (self@.ids.len() == 0),
    {
        self.available_sounds.len() == 0
    }

    /// The loaded ids, in the order in which they were first loaded.
    pub fn available_sounds(&self) -> (ids: &Vec<String>)
        ensures
            ids@.len() == self@.ids.len(),
            forall|i: int| 0 <= i < ids@.len() ==> (#[trigger] ids@[i])@ == self@.ids[i],
    {
        &self.available_sounds
    }

    /// The id at position `index` of the loaded ids.
    pub fn id_at(&self, index: usize) -> (id: &String)
        requires
            index < self@.ids.len(),
        ensures
            id@ == self@.ids[index as int],
    {
        &self.available_sounds[index]
    }
}

/// Loading into a well-formed store leaves it well formed.
pub proof fn lemma_insert_preserves_wf(store: StoreView, id: Seq<char>, sample: Seq<u8>)
    requires
        store.wf(),
    ensures
        store.insert(id, sample).wf(),
{
    let after = store.insert(id, sample);
    if !store.samples.contains_key(id) {
        assert forall|other: Seq<char>| #[trigger]
            after.samples.contains_key(other) implies after.ids.contains(other) by {
            if other == id {
                assert(after.ids[store.ids.len() as int] == id);
            } else {
                let k = choose|k: int| 0 <= k < store.ids.len() && store.ids[k] == other;
                assert(after.ids[k] == other);
            }
        }
    }
}

/// A well-formed store lists as many ids as it holds samples.
pub proof fn lemma_ids_count_samples(store: StoreView)
    requires
        store.wf(),
    ensures
        store.samples.dom().finite(),
        store.samples.dom().len() == store.ids.len(),
{
    assert(store.ids.to_set() =~= store.samples.dom());
    store.ids.unique_seq_to_set();
}

} // verus!

//! What startup makes of the files that it finds: a model of the files on
//! disk, the store that is to come out of them, and the proof that
//! [`crate::startup::Startup`] arrives there.

use vstd::prelude::*;
use crate::config::KeyDefineView;
use crate::config::SoundConfigView;
use crate::paths::config_filename;
use crate::paths::found;
use crate::paths::search_path;
use crate::paths::SEARCH_DIRS;
use crate::startup::next_defined;
use crate::startup::LoadEventView;
use crate::startup::LoadRequestView;
use crate::startup::StartupErrorView;
use crate::startup::StartupView;
use crate::store::lemma_insert_preserves_wf;
use crate::store::StoreView;

verus! {

/// The files that startup can read, and what the parser makes of a
/// configuration file.
pub struct Disk {
    /// The content of every file that can be read, by path.
    pub files: Map<Seq<char>, Seq<u8>>,
    /// The configuration that a file's content stands for, or the reason why
    /// it stands for none.
    pub parse: spec_fn(Seq<u8>) -> Result<SoundConfigView, Seq<char>>,
}

impl Disk {
    /// What comes of serving `request` on this disk.
    pub open spec fn answer(self, request: LoadRequestView) -> LoadEventView {
        match request {
            LoadRequestView::ReadConfig(path) => if self.files.contains_key(path) {
                match (self.parse)(self.files[path]) {
                    Ok(config) => LoadEventView::ConfigLoaded(config),
                    Err(reason) => LoadEventView::ConfigInvalid(reason),
                }
            } else {
                LoadEventView::ConfigMissing
            },
            LoadRequestView::ReadSample(path) => if self.files.contains_key(path) {
                LoadEventView::SampleLoaded(self.files[path])
            } else {
                LoadEventView::SampleMissing
            },
            LoadRequestView::Ready => LoadEventView::SampleMissing,
            LoadRequestView::Abort(error) => LoadEventView::SampleMissing,
        }
    }

    /// The state that `state` has come to after `steps` requests were served
    /// on this disk.
    pub open spec fn run(self, state: StartupView, steps: nat) -> StartupView
        decreases steps,
    {
        if steps == 0 {
            state
        } else {
            self.run(state.step(self.answer(state.request())), (steps - 1) as nat)
        }
    }

    /// The store that the first `upto` entries of `defines` give: each entry
    /// that names a file which is found, in one of the searched directories,
    /// loads that file's content under its key; the other entries load
    /// nothing.
    pub open spec fn loaded(self, defines: Seq<KeyDefineView>, upto: nat) -> StoreView
        decreases upto,
    {
        if upto == 0 {
            StoreView::empty()
        } else {
            let before = self.loaded(defines, (upto - 1) as nat);
            let define = defines[upto - 1];
            match define.filename {
                Some(filename) => match found(self.files, filename, 0) {
                    Some(sample) => before.insert(define.key, sample),
                    None => before,
                },
                None => before,
            }
        }
    }

    /// Where startup is to end on this disk: without a configuration file
    /// in any searched directory it fails; with one that does not parse, the
    /// first in the order of the search, it fails too; and else it is ready,
    /// with the store that the configuration's entries give.
    pub open spec fn outcome(self) -> StartupView {
        match found(self.files, config_filename(), 0) {
            None => StartupView::Failed { error: StartupErrorView::ConfigNotFound },
            Some(content) => match (self.parse)(content) {
                Err(reason) => StartupView::Failed { error: StartupErrorView::ConfigInvalid(reason) },
                Ok(config) => StartupView::Loading {
                    defines: config.defines,
                    entry: config.defines.len(),
                    attempt: 0,
                    store: self.loaded(config.defines, config.defines.len()),
                },
            },
        }
    }
}

/// Whether the entry at `index` of `defines` names a file that is found
/// among `files`.
pub open spec fn entry_loads(files: Map<Seq<char>, Seq<u8>>, defines: Seq<KeyDefineView>, index: int) -> bool {
    &&& 0 <= index < defines.len()
    &&& defines[index].filename is Some
    &&& found(files, defines[index].filename.unwrap(), 0) is Some
}

/// Every event leaves a well-formed state well formed.
pub proof fn lemma_step_preserves_wf(state: StartupView, event: LoadEventView)
    requires
        state.wf(),
    ensures
        state.step(event).wf(),
{
    match state {
        StartupView::Locating { attempt } => {
            if let LoadEventView::ConfigLoaded(config) = event {
                lemma_next_defined(config.defines, 0);
            }
        },
        StartupView::Loading { defines, entry, attempt, store } => {
            if entry < defines.len() {
                lemma_next_defined(defines, entry + 1);
                if let LoadEventView::SampleLoaded(sample) = event {
                    lemma_insert_preserves_wf(store, defines[entry as int].key, sample);
                }
            }
        },
        StartupView::Failed { error } => {},
    }
}

/// Once startup is ready or has failed, no event changes it, and it asks
/// for no further read.
pub proof fn lemma_terminal_is_final(state: StartupView, event: LoadEventView)
    requires
        state.is_terminal(),
    ensures
        state.step(event) == state,
        state.request() is Ready || state.request() is Abort,
{
}

/// While startup is neither ready nor failed, it asks for a read.
pub proof fn lemma_request_while_running(state: StartupView)
    requires
        state.wf(),
        !state.is_terminal(),
    ensures
        state.request() is ReadConfig || state.request() is ReadSample,
{
}

/// `next_defined` stays within `defines` and stops only on an entry that
/// names a file; the entries that it passes over name none.
pub proof fn lemma_next_defined(defines: Seq<KeyDefineView>, from: nat)
    requires
        from <= defines.len(),
    ensures
        from <= next_defined(defines, from) <= defines.len(),
        next_defined(defines, from) < defines.len() ==> defines[next_defined(
            defines,
            from,
        ) as int].filename is Some,
        forall|index: int|
            from <= index < next_defined(defines, from) ==> (#[trigger] defines[index]).filename is None,
    decreases defines.len() - from,
{
    if from < defines.len() && defines[from as int].filename is None {
        lemma_next_defined(defines, from + 1);
    }
}

/// Entries that name no file load nothing.
proof fn lemma_loaded_skips(disk: Disk, defines: Seq<KeyDefineView>, from: nat, upto: nat)
    requires
        from <= upto <= defines.len(),
        forall|index: int| from <= index < upto ==> (#[trigger] defines[index]).filename is None,
    ensures
        disk.loaded(defines, upto) == disk.loaded(defines, from),
    decreases upto,
{
    if from < upto {
        lemma_loaded_skips(disk, defines, from, (upto - 1) as nat);
    }
}

/// What is loaded is a well-formed store.
pub proof fn lemma_loaded_wf(disk: Disk, defines: Seq<KeyDefineView>, upto: nat)
    ensures
        disk.loaded(defines, upto).wf(),
    decreases upto,
{
    if upto > 0 {
        lemma_loaded_wf(disk, defines, (upto - 1) as nat);
        let before = disk.loaded(defines, (upto - 1) as nat);
        let define = defines[upto - 1];
        if define.filename is Some && found(disk.files, define.filename.unwrap(), 0) is Some {
            lemma_insert_preserves_wf(
                before,
                define.key,
                found(disk.files, define.filename.unwrap(), 0).unwrap(),
            );
        }
    }
}

/// A key has a sample in the loaded store exactly if one of the entries
/// names it together with a file that is found: an entry without a file
/// name, or with one that is in none of the searched directories, loads
/// nothing.
pub proof fn lemma_loaded_keys(disk: Disk, defines: Seq<KeyDefineView>, upto: nat, key: Seq<char>)
    requires
        upto <= defines.len(),
    ensures
        disk.loaded(defines, upto).samples.contains_key(key) <==> exists|index: int|
            index < upto && #[trigger] entry_loads(disk.files, defines, index) && defines[index].key
                == key,
    decreases upto,
{
    if upto > 0 {
        let last = (upto - 1) as nat;
        lemma_loaded_keys(disk, defines, last, key);
        if disk.loaded(defines, upto).samples.contains_key(key) {
            if disk.loaded(defines, last).samples.contains_key(key) {
                let index = choose|index: int|
                    index < last && #[trigger] entry_loads(disk.files, defines, index)
                        && defines[index].key == key;
                assert(index < upto && entry_loads(disk.files, defines, index) && defines[index].key
                    == key);
            } else {
                assert(entry_loads(disk.files, defines, last as int) && defines[last as int].key
                    == key);
            }
        }
    }
}

/// The sample that a key has in the loaded store is the content found for
/// the last entry that names the key together with a file that is found.
pub proof fn lemma_loaded_sample(disk: Disk, defines: Seq<KeyDefineView>, upto: nat, index: int)
    requires
        upto <= defines.len(),
        index < upto,
        entry_loads(disk.files, defines, index),
        forall|later: int|
            index < later < upto && #[trigger] entry_loads(disk.files, defines, later)
                ==> defines[later].key != defines[index].key,
    ensures
        disk.loaded(defines, upto).samples.contains_key(defines[index].key),
        disk.loaded(defines, upto).samples[defines[index].key] == found(
            disk.files,
            defines[index].filename.unwrap(),
            0,
        ).unwrap(),
    decreases upto,
{
    if index < upto - 1 {
        lemma_loaded_sample(disk, defines, (upto - 1) as nat, index);
        assert(entry_loads(disk.files, defines, upto - 1) ==> defines[upto - 1].key
            != defines[index].key);
    }
}

/// From a state in which the samples are being loaded, startup becomes
/// ready with the store that all entries give.
proof fn lemma_loading_completes(
    disk: Disk,
    defines: Seq<KeyDefineView>,
    entry: nat,
    attempt: nat,
) -> (steps: nat)
    requires
        (StartupView::Loading { defines, entry, attempt, store: disk.loaded(defines, entry) }).wf(),
        entry < defines.len() ==> found(disk.files, defines[entry as int].filename.unwrap(), 0)
            == found(disk.files, defines[entry as int].filename.unwrap(), attempt),
    ensures
        disk.run(
            StartupView::Loading { defines, entry, attempt, store: disk.loaded(defines, entry) },
            steps,
        ) == (StartupView::Loading {
            defines,
            entry: defines.len(),
            attempt: 0,
            store: disk.loaded(defines, defines.len()),
        }),
    decreases defines.len() - entry, SEARCH_DIRS - attempt,
{
    let state = StartupView::Loading { defines, entry, attempt, store: disk.loaded(defines, entry) };
    if entry == defines.len() {
        0
    } else {
        let filename = defines[entry as int].filename.unwrap();
        let path = search_path(attempt as int, filename);
        let next = state.step(disk.answer(state.request()));
        lemma_step_preserves_wf(state, disk.answer(state.request()));
        let following = next_defined(defines, entry + 1);
        lemma_next_defined(defines, entry + 1);
        lemma_loaded_skips(disk, defines, entry + 1, following);
        if !disk.files.contains_key(path) && attempt + 1 < SEARCH_DIRS {
            let rest = lemma_loading_completes(disk, defines, entry, attempt + 1);
            rest + 1
        } else {
            assert(next == (StartupView::Loading {
                defines,
                entry: following,
                attempt: 0,
                store: disk.loaded(defines, following),
            }));
            let rest = lemma_loading_completes(disk, defines, following, 0);
            rest + 1
        }
    }
}

/// From a state in which the configuration file is being looked for, and
/// was not found at any earlier attempt, startup arrives at the outcome.
proof fn lemma_locating_completes(disk: Disk, attempt: nat) -> (steps: nat)
    requires
        attempt < SEARCH_DIRS,
        found(disk.files, config_filename(), 0) == found(disk.files, config_filename(), attempt),
    ensures
        disk.run(StartupView::Locating { attempt }, steps) == disk.outcome(),
    decreases SEARCH_DIRS - attempt,
{
    let state = StartupView::Locating { attempt };
    let path = search_path(attempt as int, config_filename());
    let next = state.step(disk.answer(state.request()));
    if disk.files.contains_key(path) {
        match (disk.parse)(disk.files[path]) {
            Ok(config) => {
                let first = next_defined(config.defines, 0);
                lemma_next_defined(config.defines, 0);
                lemma_loaded_skips(disk, config.defines, 0, first);
                assert(next == (StartupView::Loading {
                    defines: config.defines,
                    entry: first,
                    attempt: 0,
                    store: disk.loaded(config.defines, first),
                }));
                let rest = lemma_loading_completes(disk, config.defines, first, 0);
                rest + 1
            },
            Err(reason) => 1,
        }
    } else if attempt + 1 < SEARCH_DIRS {
        let rest = lemma_locating_completes(disk, attempt + 1);
        rest + 1
    } else {
        assert(disk.run(next, 0) == next);
        1
    }
}

/// Startup arrives where it is to end: on every disk, serving one request
/// after another brings startup from its beginning to the outcome of that
/// disk after some number of steps, and there it stays.
pub proof fn lemma_startup_arrives(disk: Disk) -> (steps: nat)
    ensures
        disk.run(StartupView::start(), steps) == disk.outcome(),
        disk.outcome().is_terminal(),
        disk.outcome().wf(),
        forall|more: nat| disk.run(disk.outcome(), more) == disk.outcome(),
{
    let steps = lemma_locating_completes(disk, 0);
    match found(disk.files, config_filename(), 0) {
        Some(content) => {
            if let Ok(config) = (disk.parse)(content) {
                lemma_loaded_wf(disk, config.defines, config.defines.len());
            }
        },
        None => {},
    }
    assert forall|more: nat| disk.run(disk.outcome(), more) == disk.outcome() by {
        lemma_terminal_stays(disk, disk.outcome(), more);
    }
    steps
}

/// A state that is ready or has failed stays as it is, however many more
/// requests are served.
pub proof fn lemma_terminal_stays(disk: Disk, state: StartupView, steps: nat)
    requires
        state.is_terminal(),
    ensures
        disk.run(state, steps) == state,
    decreases steps,
{
    if steps > 0 {
        lemma_terminal_stays(disk, state, (steps - 1) as nat);
    }
}

} // verus!

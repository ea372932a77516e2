//! Startup: finding the configuration, loading the samples that it names,
//! and building the playback engine.
//!
//! Reading files is the caller's part. [`Startup`] says which file to read
//! next ([`Startup::request`]) and is told what came of it
//! ([`Startup::handle`]), until it is ready or has failed.

use vstd::prelude::*;
use crate::config::KeyDefine;
use crate::config::KeyDefineView;
use crate::config::SoundConfig;
use crate::config::SoundConfigView;
use crate::manager::ManagerView;
use crate::manager::SoundManager;
use crate::manager::POOL_SIZE;
use crate::paths::config_filename;
use crate::paths::config_path_for;
use crate::paths::search_path;
use crate::paths::search_path_for;
use crate::paths::SEARCH_DIRS;
use crate::pool::PoolView;
use crate::store::SampleStore;
use crate::store::StoreView;

verus! {

/// Why startup failed, as a mathematical value.
pub enum StartupErrorView {
    ConfigNotFound,
    ConfigInvalid(Seq<char>),
}

/// Why startup failed.
#[derive(Debug, PartialEq, Eq)]
pub enum StartupError {
    /// No configuration file could be opened in any of the searched directories.
    ConfigNotFound,
    /// The configuration file was opened but is no valid configuration; the
    /// reason is given as text.
    ConfigInvalid(String),
}

impl View for StartupError {
    type V = StartupErrorView;

    open spec fn view(&self) -> StartupErrorView {
        match self {
            StartupError::ConfigNotFound => StartupErrorView::ConfigNotFound,
            StartupError::ConfigInvalid(reason) => StartupErrorView::ConfigInvalid(reason@),
        }
    }
}

/// The text that reports `error`.
pub open spec fn error_message(error: StartupErrorView) -> Seq<char> {
    match error {
        StartupErrorView::ConfigNotFound => "Could not find nk-cream/config.json in any expected location"@,
        StartupErrorView::ConfigInvalid(reason) => reason,
    }
}

impl StartupError {
    /// The text that reports this error.
    pub fn message(&self) -> (text: String)
        ensures
            text@ == error_message(self@),
    {
        match self {
            StartupError::ConfigNotFound => String::from_str(
                "Could not find nk-cream/config.json in any expected location",
            ),
            StartupError::ConfigInvalid(reason) => reason.clone(),
        }
    }

    /// An error equal to this one.
    pub fn duplicate(&self) -> (copy: StartupError)
        ensures
            copy@ == self@,
    {
        match self {
            StartupError::ConfigNotFound => StartupError::ConfigNotFound,
            StartupError::ConfigInvalid(reason) => StartupError::ConfigInvalid(reason.clone()),
        }
    }
}

/// What came of a read, as a mathematical value.
pub enum LoadEventView {
    ConfigMissing,
    ConfigInvalid(Seq<char>),
    ConfigLoaded(SoundConfigView),
    SampleMissing,
    SampleLoaded(Seq<u8>),
}

/// What came of the read that was last requested.
#[derive(Debug, PartialEq, Eq)]
pub enum LoadEvent {
    /// The configuration file could not be opened at the requested path.
    ConfigMissing,
    /// The configuration file was opened but could not be parsed.
    ConfigInvalid(String),
    /// The configuration file was opened and parsed.
    ConfigLoaded(SoundConfig),
    /// The sample file could not be read at the requested path.
    SampleMissing,
    /// The sample file was read.
    SampleLoaded(Vec<u8>),
}

impl View for LoadEvent {
    type V = LoadEventView;

    open spec fn view(&self) -> LoadEventView {
        match self {
            LoadEvent::ConfigMissing => LoadEventView::ConfigMissing,
            LoadEvent::ConfigInvalid(reason) => LoadEventView::ConfigInvalid(reason@),
            LoadEvent::ConfigLoaded(config) => LoadEventView::ConfigLoaded(config@),
            LoadEvent::SampleMissing => LoadEventView::SampleMissing,
            LoadEvent::SampleLoaded(sample) => LoadEventView::SampleLoaded(sample@),
        }
    }
}

/// What startup asks for next, as a mathematical value.
pub enum LoadRequestView {
    ReadConfig(Seq<char>),
    ReadSample(Seq<char>),
    Ready,
    Abort(StartupErrorView),
}

/// What startup asks for next.
#[derive(Debug, PartialEq, Eq)]
pub enum LoadRequest {
    /// Open and parse the configuration file at this path.
    ReadConfig(String),
    /// Read the sample file at this path.
    ReadSample(String),
    /// Nothing is left to read: the engine can be built.
    Ready,
    /// Startup has failed.
    Abort(StartupError),
}

impl View for LoadRequest {
    type V = LoadRequestView;

    open spec fn view(&self) -> LoadRequestView {
        match self {
            LoadRequest::ReadConfig(path) => LoadRequestView::ReadConfig(path@),
            LoadRequest::ReadSample(path) => LoadRequestView::ReadSample(path@),
            LoadRequest::Ready => LoadRequestView::Ready,
            LoadRequest::Abort(error) => LoadRequestView::Abort(error@),
        }
    }
}

/// The first position from `from` on whose entry names a sample file, or
/// the length of `defines` where there is none.
pub open spec fn next_defined(defines: Seq<KeyDefineView>, from: nat) -> nat
    decreases defines.len() - from,
{
    if from >= defines.len() {
        defines.len()
    } else if defines[from as int].filename is Some {
        from
    } else {
        next_defined(defines, from + 1)
    }
}

/// Startup as a mathematical value.
pub enum StartupView {
    /// The configuration file is being looked for, at `attempt`.
    Locating { attempt: nat },
    /// The sample file of entry `entry` is being looked for, at `attempt`;
    /// `store` holds what the entries before it gave. With `entry` at the
    /// length of `defines` all is loaded.
    Loading { defines: Seq<KeyDefineView>, entry: nat, attempt: nat, store: StoreView },
    /// Startup has failed.
    Failed { error: StartupErrorView },
}

impl StartupView {
    /// The state in which startup begins.
    pub open spec fn start() -> StartupView {
        StartupView::Locating { attempt: 0 }
    }

    /// The attempt is one of the searched directories, and while samples are
    /// loaded the current entry is one that names a file.
    pub open spec fn wf(self) -> bool {
        match self {
            StartupView::Locating { attempt } => attempt < SEARCH_DIRS,
            StartupView::Loading { defines, entry, attempt, store } => {
                &&& store.wf()
                &&& entry <= defines.len()
                &&& attempt < SEARCH_DIRS
                &&& entry < defines.len() ==> defines[entry as int].filename is Some
                &&& entry == defines.len() ==> attempt == 0
            },
            StartupView::Failed { error } => true,
        }
    }

    /// All samples are loaded.
    pub open spec fn is_ready(self) -> bool {
        self matches StartupView::Loading { defines, entry, .. } && entry == defines.len()
    }

    /// Nothing is left to read: startup is ready or has failed.
    pub open spec fn is_terminal(self) -> bool {
        self.is_ready() || self is Failed
    }

    /// What is asked for in this state.
    pub open spec fn request(self) -> LoadRequestView {
        match self {
            StartupView::Locating { attempt } => LoadRequestView::ReadConfig(
                search_path(attempt as int, config_filename()),
            ),
            StartupView::Loading { defines, entry, attempt, store } => if entry < defines.len() {
                LoadRequestView::ReadSample(
                    search_path(attempt as int, defines[entry as int].filename.unwrap()),
                )
            } else {
                LoadRequestView::Ready
            },
            StartupView::Failed { error } => LoadRequestView::Abort(error),
        }
    }

    /// The state after `event` came in. An event that does not answer the
    /// request of this state changes nothing.
    pub open spec fn step(self, event: LoadEventView) -> StartupView {
        match self {
            StartupView::Locating { attempt } => match event {
                LoadEventView::ConfigMissing => if attempt + 1 < SEARCH_DIRS {
                    StartupView::Locating { attempt: attempt + 1 }
                } else {
                    StartupView::Failed { error: StartupErrorView::ConfigNotFound }
                },
                LoadEventView::ConfigInvalid(reason) => StartupView::Failed {
                    error: StartupErrorView::ConfigInvalid(reason),
                },
                LoadEventView::ConfigLoaded(config) => StartupView::Loading {
                    defines: config.defines,
                    entry: next_defined(config.defines, 0),
                    attempt: 0,
                    store: StoreView::empty(),
                },
                _ => self,
            },
            StartupView::Loading { defines, entry, attempt, store } => if entry < defines.len() {
                match event {
                    LoadEventView::SampleMissing => if attempt + 1 < SEARCH_DIRS {
                        StartupView::Loading { defines, entry, attempt: attempt + 1, store }
                    } else {
                        StartupView::Loading {
                            defines,
                            entry: next_defined(defines, entry + 1),
                            attempt: 0,
                            store,
                        }
                    },
                    LoadEventView::SampleLoaded(sample) => StartupView::Loading {
                        defines,
                        entry: next_defined(defines, entry + 1),
                        attempt: 0,
                        store: store.insert(defines[entry as int].key, sample),
                    },
                    _ => self,
                }
            } else {
                self
            },
            StartupView::Failed { error } => self,
        }
    }
}

/// Where startup stands; see [`StartupView`] for the three stages.
enum Stage {
    Locating { attempt: usize },
    Loading { defines: Vec<KeyDefine>, entry: usize, attempt: usize, sounds: SampleStore },
    Failed { error: StartupError },
}

/// The startup of the engine, from the search for the configuration file to
/// the last sample.
pub struct Startup {
    stage: Stage,
}

impl View for Startup {
    type V = StartupView;

    closed spec fn view(&self) -> StartupView {
        match self.stage {
            Stage::Locating { attempt } => StartupView::Locating { attempt: attempt as nat },
            Stage::Loading { defines, entry, attempt, sounds } => StartupView::Loading {
                defines: defines@.map_values(|define: KeyDefine| define@),
                entry: entry as nat,
                attempt: attempt as nat,
                store: sounds@,
            },
            Stage::Failed { error } => StartupView::Failed { error: error@ },
        }
    }
}

/// The first position from `from` on whose entry names a sample file.
fn skip_undefined(defines: &Vec<KeyDefine>, from: usize) -> (entry: usize)
    requires
        from <= defines.len(),
    ensures
        entry == next_defined(defines@.map_values(|define: KeyDefine| define@), from as nat),
        from <= entry <= defines.len(),
        entry < defines.len() ==> defines[entry as int].filename is Some,
{
    let ghost model = defines@.map_values(|define: KeyDefine| define@);
    let mut entry = from;
    while entry < defines.len() && defines[entry].filename.is_none()
        invariant
            from <= entry <= defines.len(),
            model == defines@.map_values(|define: KeyDefine| define@),
            next_defined(model, entry as nat) == next_defined(model, from as nat),
        decreases defines.len() - entry,
    {
        entry += 1;
    }
    entry
}

impl Startup {
    /// See [`StartupView::wf`].
    pub open spec fn wf(&self) -> bool {
        self@.wf()
    }

    /// Startup at its beginning.
    pub fn new() -> (startup: Startup)
        ensures
            startup.wf(),
            startup@ == StartupView::start(),
    {
        Startup { stage: Stage::Locating { attempt: 0 } }
    }

    /// What has to be done next.
    pub fn request(&self) -> (request: LoadRequest)
        requires
            self.wf(),
        ensures
            request@ == self@.request(),
    {
        match &self.stage {
            Stage::Locating { attempt } => LoadRequest::ReadConfig(config_path_for(*attempt)),
            Stage::Loading { defines, entry, attempt, sounds } => {
                if *entry < defines.len() {
                    match &defines[*entry].filename {
                        Some(filename) => LoadRequest::ReadSample(
                            search_path_for(*attempt, filename.as_str()),
                        ),
                        None => LoadRequest::Ready,
                    }
                } else {
                    LoadRequest::Ready
                }
            },
            Stage::Failed { error } => LoadRequest::Abort(error.duplicate()),
        }
    }

    /// Takes in what came of the last request.
    pub fn handle(self, event: LoadEvent) -> (next: Startup)
        requires
            self.wf(),
        ensures
            next.wf(),
            next@ == self@.step(event@),
    {
        match self.stage {
            Stage::Locating { attempt } => match event {
                LoadEvent::ConfigMissing => if attempt + 1 < SEARCH_DIRS {
                    Startup { stage: Stage::Locating { attempt: attempt + 1 } }
                } else {
                    Startup { stage: Stage::Failed { error: StartupError::ConfigNotFound } }
                },
                LoadEvent::ConfigInvalid(reason) => Startup {
                    stage: Stage::Failed { error: StartupError::ConfigInvalid(reason) },
                },
                LoadEvent::ConfigLoaded(config) => {
                    let defines = config.defines;
                    let entry = skip_undefined(&defines, 0);
                    Startup {
                        stage: Stage::Loading { defines, entry, attempt: 0, sounds: SampleStore::new() },
                    }
                },
                _ => Startup { stage: Stage::Locating { attempt } },
            },
            Stage::Loading { defines, entry, attempt, sounds } => {
                if entry < defines.len() {
                    match event {
                        LoadEvent::SampleMissing => if attempt + 1 < SEARCH_DIRS {
                            Startup {
                                stage: Stage::Loading { defines, entry, attempt: attempt + 1, sounds },
                            }
                        } else {
                            let entry = skip_undefined(&defines, entry + 1);
                            Startup { stage: Stage::Loading { defines, entry, attempt: 0, sounds } }
                        },
                        LoadEvent::SampleLoaded(sample) => {
                            let mut sounds = sounds;
                            sounds.insert(defines[entry].key.clone(), sample);
                            let entry = skip_undefined(&defines, entry + 1);
                            Startup { stage: Stage::Loading { defines, entry, attempt: 0, sounds } }
                        },
                        _ => Startup { stage: Stage::Loading { defines, entry, attempt, sounds } },
                    }
                } else {
                    Startup { stage: Stage::Loading { defines, entry, attempt, sounds } }
                }
            },
            Stage::Failed { error } => Startup { stage: Stage::Failed { error } },
        }
    }

    /// The engine over the loaded samples, once startup is ready.
    pub fn into_manager(self) -> (manager: Option<SoundManager>)
        requires
            self.wf(),
        ensures
            manager is Some <==> self@.is_ready(),
            manager matches Some(engine) ==> engine.wf() && engine@ == (ManagerView {
                store: self@->store,
                pool: PoolView::fresh(POOL_SIZE as nat),
            }),
    {
        match self.stage {
            Stage::Loading { defines, entry, attempt, sounds } => {
                if entry == defines.len() {
                    Some(SoundManager::new(sounds))
                } else {
                    None
                }
            },
            _ => None,
        }
    }
}

} // verus!

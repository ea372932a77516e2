//! The sound pack configuration, as plain values.

use vstd::prelude::*;

verus! {

/// One entry of a configuration's key table, as a mathematical value.
pub struct KeyDefineView {
    pub key: Seq<char>,
    pub filename: Option<Seq<char>>,
}

/// One entry of a configuration's key table: a logical sound key and the
/// name of its sample file, if it has one.
#[derive(Debug, PartialEq, Eq)]
pub struct KeyDefine {
    pub key: String,
    pub filename: Option<String>,
}

impl View for KeyDefine {
    type V = KeyDefineView;

    open spec fn view(&self) -> KeyDefineView {
        KeyDefineView {
            key: self.key@,
            filename: match self.filename {
                Some(name) => Some(name@),
                None => None,
            },
        }
    }
}

/// A configuration as a mathematical value.
pub struct SoundConfigView {
    pub id: Seq<char>,
    pub name: Seq<char>,
    pub key_define_type: Seq<char>,
    pub includes_numpad: bool,
    pub sound: Seq<char>,
    pub defines: Seq<KeyDefineView>,
}

/// The configuration of a sound pack.
#[derive(Debug, PartialEq, Eq)]
pub struct SoundConfig {
    pub id: String,
    pub name: String,
    pub key_define_type: String,
    pub includes_numpad: bool,
    /// Name of the pack's default sample file.
    pub sound: String,
    /// The key table, in the order in which the samples are to be loaded.
    pub defines: Vec<KeyDefine>,
}

impl View for SoundConfig {
    type V = SoundConfigView;

    open spec fn view(&self) -> SoundConfigView {
        SoundConfigView {
            id: self.id@,
            name: self.name@,
            key_define_type: self.key_define_type@,
            includes_numpad: self.includes_numpad,
            sound: self.sound@,
            defines: self.defines@.map_values(|define: KeyDefine| define@),
        }
    }
}

} // verus!

//! Core of a mechanical-keyboard sound simulator: mapping physical keys to
//! logical sound keys, keeping the loaded samples, assigning every sound to a
//! voice in round-robin order, and deciding which files to read at startup.
//!
//! Nothing in this crate touches the audio device, the keyboard hook or the
//! file system. Each operation returns what has to be done (a [`pool::Playback`]
//! to render, a [`startup::LoadRequest`] to serve) and the caller performs it.

pub mod config;
pub mod disk;
pub mod keymap;
pub mod manager;
pub mod paths;
pub mod pool;
pub mod startup;
pub mod store;

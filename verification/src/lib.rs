//! Core of a speech-to-text dictation backend: the model catalog, the
//! decisions behind resumable downloads and archive extraction, the remote
//! provider protocols, the transcription state machine and the custom word
//! corrector. Nothing here performs I/O; callers carry out the actions that
//! these modules decide on and report back what happened.

pub mod error;
pub mod text;
pub mod custom_words;
pub mod audio;
pub mod settings;
pub mod commands;
pub mod model;
pub mod download;
pub mod extract;
pub mod managers;
pub mod transcription;
pub mod events;

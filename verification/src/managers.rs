//! The remote providers: for each of them the steps of one transcription,
//! from the audio to the text. Each adapter decides what is sent next and
//! what an answer means; the caller sends and waits.

pub mod language;
pub mod remote;
pub mod mistral;
pub mod deepgram;
pub mod assemblyai;
pub mod gladia;

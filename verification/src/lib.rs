//! Playback session management for a MIDI synthesis engine.
//!
//! The library owns the protocol between a caller, the engine's single
//! process-wide synthesizer instance, and per-track decode sessions: it
//! validates sample rates, locates a configuration file, maps engine
//! statuses to errors, and runs the pull-based PCM streaming contract in
//! which a short read is the one end-of-stream signal.
//!
//! The engine itself is an opaque external service reached over a C
//! interface, so every engine call is performed by the embedding program.
//! Each operation here either validates a request before the engine may be
//! asked (a [`Player::with_cfg`] or [`Player::load_file`] stage), or takes
//! the engine's answer as a plain value (a status code, a parse flag, a
//! rendered buffer) and decides what the caller sees. Those decisions are
//! what this crate verifies.

mod errors;
mod player;
mod track;

pub use errors::PlayerError;
pub use player::DEFAULT_VOLUME;
pub use player::InitRequest;
pub use player::MAX_SAMPLE_RATE;
pub use player::MAX_VOLUME;
pub use player::MIN_SAMPLE_RATE;
pub use player::OpenRequest;
pub use player::Player;
pub use player::valid_rate;
pub use track::Midi;
pub use track::TrackInfo;
pub use track::copyright_text;
pub use track::lemma_end_of_stream_stable;
pub use track::lemma_seek_resumes;
pub use track::play_ended_after;
pub use track::play_output;
pub use track::utf8_decoding;

//! Planning core of an audio conversion front-end.
//!
//! The library builds and checks everything that can be decided without
//! touching the filesystem or spawning a process: the quality-profile
//! table, the audio-file classifier, the exact argument lists handed to
//! the external encoder and separator tools, and the bookkeeping of a
//! batch run. A thin unverified shell performs the actual I/O.

pub mod batch;
pub mod discover;
pub mod invocation;
pub mod outcome;
pub mod paths;
pub mod profiles;
pub mod text;

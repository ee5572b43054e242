//! Playback bookkeeping for a voice-chat soundboard.
//!
//! Members of a server play short sounds into its voice channel. The
//! registry records, per server, which playbacks are running, so that a
//! stop request and the natural end of a track agree on who closes which
//! record of the playback history.
//!
//! * `registry` holds the running playbacks and the three operations on
//!   them: register, stop all, finish one.
//! * `listener` is what runs when a track ends.
//! * `play` is the course of a play request, step by step.
//! * `report` says what a stop request did.
//! * `records` holds the rows of the history and of the sound library.
//! * `messages` writes the replies.
//! * `model` and `serial` hold the mathematical model of the registry and
//!   what is proved of it.
//!
//! The registry is not shared by itself: whoever holds it behind a lock
//! takes the lock for one operation at a time, and never across a call to
//! the database or to the voice connection.

pub mod listener;
pub mod messages;
pub mod model;
pub mod play;
pub mod records;
pub mod registry;
pub mod report;
pub mod serial;

pub use listener::PlaybackFinisher;
pub use model::{PlaybackId, ServerId};
pub use records::{Guild, Playback, Sound};
pub use registry::TrackManager;
pub use report::{SignalOutcome, StopReport};

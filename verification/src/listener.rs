//! The completion listener: what happens when a track ends.

use crate::model::{completed, ids_of, running_on, PlaybackId, ServerId};
use crate::registry::TrackManager;
use vstd::prelude::*;

verus! {

/// Listens for the end of one track. It is made for the playback that was
/// registered on `guild_id` under `playback_id`, and the voice provider
/// runs it once the track has ended, for whatever reason.
#[derive(Clone, Copy, Debug, PartialEq, Eq, Structural)]
pub struct PlaybackFinisher {
    guild_id: ServerId,
    playback_id: PlaybackId,
}

impl PlaybackFinisher {
    /// The server whose track the listener waits for.
    pub closed spec fn server(&self) -> ServerId {
        self.guild_id
    }

    /// The history record of the track the listener waits for.
    pub closed spec fn record(&self) -> PlaybackId {
        self.playback_id
    }

    /// The listener for the playback of `guild_id` with the record
    /// `playback_id`.
    pub fn new(guild_id: ServerId, playback_id: PlaybackId) -> (listener: Self)
        ensures
            listener.server() == guild_id,
            listener.record() == playback_id,
    {
        PlaybackFinisher { guild_id, playback_id }
    }

    /// The server whose track the listener waits for.
    pub fn guild_id(&self) -> (guild_id: ServerId)
        ensures
            guild_id == self.server(),
    {
        self.guild_id
    }

    /// The history record of the track the listener waits for.
    pub fn playback_id(&self) -> (playback_id: PlaybackId)
        ensures
            playback_id == self.record(),
    {
        self.playback_id
    }

    /// Runs when the track has ended: takes its playback out of the
    /// registry, if it is still there.
    ///
    /// The result says what is left to do for the history. A track that was
    /// still registered ended by itself, and its record is to be closed
    /// with no stopper: the result is that record. A track that a stop
    /// request had already removed is closed by that request, and the
    /// result is `None`, as it is for every later run.
    pub fn act<H>(&self, manager: &mut TrackManager<H>) -> (closing: Option<PlaybackId>)
        ensures
            final(manager).wf(),
            final(manager)@ == completed(old(manager)@, self.server(), self.record()),
            closing == if old(manager).active(self.server()).contains(self.record()) {
                Some(self.record())
            } else {
                None
            },
    {
        match manager.finish_playback(self.guild_id, self.playback_id) {
            Some(_) => Some(self.playback_id),
            None => None,
        }
    }
}

} // verus!

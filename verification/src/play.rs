//! The course of one play request.
//!
//! A play request needs two collaborators that the library cannot reach: the
//! voice provider, which finds or joins a voice session, and the history
//! store, which opens a record. The caller does that work; the library
//! decides what comes next. A `PlayStage` names the work that is due, a
//! `PlayEvent` says how it ended, and `advance` gives the next stage and
//! registers the prepared track.
//!
//! The order is: find the server's voice session, or else the requester's
//! voice channel and join it; open the history record; prepare the track
//! and its completion listener; register the track; start it. The track is
//! registered before it plays, so that its end always finds it in the
//! registry. A request that fails registers nothing.

use crate::model::{registered, well_formed, PlaybackId, Registry, ServerId};
use crate::registry::TrackManager;
use vstd::prelude::*;

verus! {

/// The identifier of a voice channel.
pub type ChannelId = u64;

/// Why a play request failed.
#[derive(Clone, Copy, Debug, PartialEq, Eq, Structural)]
pub enum PlayError {
    /// The server has no voice session, and the requester is in no voice
    /// channel that could be joined.
    NoVoiceChannel,
    /// The voice channel could not be joined.
    Connection,
    /// The server has no such sound, or its audio could not be opened.
    SoundNotFound,
}

/// The work that is due next in a play request, or how the request ended.
#[derive(Clone, Copy, Debug, PartialEq, Eq, Structural)]
pub enum PlayStage {
    /// Ask the voice provider for the server's session.
    FindSession,
    /// Look up the voice channel that the requester is in.
    FindChannel,
    /// Join `channel`.
    Join { channel: ChannelId },
    /// Ask the history store to open a record for the sound.
    OpenRecord,
    /// Open the audio, make the track and its handle, and attach the
    /// completion listener for `record`.
    PrepareTrack { record: PlaybackId },
    /// The track is registered under `record`: hand it to the voice session
    /// to play.
    StartTrack { record: PlaybackId },
    /// The track plays and is registered under `record`.
    Done { record: PlaybackId },
    /// The request failed; nothing was registered.
    Failed { error: PlayError },
}

/// How the work of a stage ended.
pub enum PlayEvent<H> {
    /// The server has a voice session.
    SessionFound,
    /// The server has no voice session.
    SessionMissing,
    /// The requester is in `channel`.
    ChannelFound { channel: ChannelId },
    /// The requester is in no voice channel.
    ChannelMissing,
    /// The voice channel was joined.
    Joined,
    /// The voice channel could not be joined.
    JoinFailed,
    /// The history store opened `record`.
    RecordOpened { record: PlaybackId },
    /// The history store knows no such sound.
    SoundMissing,
    /// The track is ready to play; `handle` controls it.
    TrackPrepared { handle: H },
    /// The audio could not be opened.
    TrackFailed,
    /// The voice session plays the track.
    TrackStarted,
}

impl PlayStage {
    /// Whether the request has ended.
    pub open spec fn is_final(self) -> bool {
        self is Done || self is Failed
    }

    /// Whether the request has ended.
    pub fn is_finished(&self) -> (finished: bool)
        ensures
            finished == self.is_final(),
    {
        match self {
            PlayStage::Done { .. } => true,
            PlayStage::Failed { .. } => true,
            _ => false,
        }
    }

    /// The result of a request that has ended: the record under which the
    /// track plays, or the reason why none does. `None` while work is due.
    pub fn outcome(&self) -> (outcome: Option<Result<PlaybackId, PlayError>>)
        ensures
            outcome == match *self {
                PlayStage::Done { record } => Some(Ok::<PlaybackId, PlayError>(record)),
                PlayStage::Failed { error } => Some(Err::<PlaybackId, PlayError>(error)),
                _ => None::<Result<PlaybackId, PlayError>>,
            },
    {
        match self {
            PlayStage::Done { record } => Some(Ok(*record)),
            PlayStage::Failed { error } => Some(Err(*error)),
            _ => None,
        }
    }
}

/// The stage that follows `stage` once `event` has come in. An event that
/// does not answer the work of the stage is ignored.
pub open spec fn next_stage<H>(stage: PlayStage, event: PlayEvent<H>) -> PlayStage {
    match (stage, event) {
        (PlayStage::FindSession, PlayEvent::SessionFound) => PlayStage::OpenRecord,
        (PlayStage::FindSession, PlayEvent::SessionMissing) => PlayStage::FindChannel,
        (PlayStage::FindChannel, PlayEvent::ChannelFound { channel }) => PlayStage::Join {
            channel,
        },
        (PlayStage::FindChannel, PlayEvent::ChannelMissing) => PlayStage::Failed {
            error: PlayError::NoVoiceChannel,
        },
        (PlayStage::Join { channel }, PlayEvent::Joined) => PlayStage::OpenRecord,
        (PlayStage::Join { channel }, PlayEvent::JoinFailed) => PlayStage::Failed {
            error: PlayError::Connection,
        },
        (PlayStage::OpenRecord, PlayEvent::RecordOpened { record }) => PlayStage::PrepareTrack {
            record,
        },
        (PlayStage::OpenRecord, PlayEvent::SoundMissing) => PlayStage::Failed {
            error: PlayError::SoundNotFound,
        },
        (PlayStage::PrepareTrack { record }, PlayEvent::TrackPrepared { handle }) =>
            PlayStage::StartTrack { record },
        (PlayStage::PrepareTrack { record }, PlayEvent::TrackFailed) => PlayStage::Failed {
            error: PlayError::SoundNotFound,
        },
        (PlayStage::StartTrack { record }, PlayEvent::TrackStarted) => PlayStage::Done { record },
        _ => stage,
    }
}

/// The registry after `event` has come in at `stage`: the prepared track
/// is registered under the record that was opened for it, and nothing else
/// ever changes the registry.
pub open spec fn next_registry<H>(
    registry: Registry<H>,
    guild_id: ServerId,
    stage: PlayStage,
    event: PlayEvent<H>,
) -> Registry<H> {
    match (stage, event) {
        (PlayStage::PrepareTrack { record }, PlayEvent::TrackPrepared { handle }) => registered(
            registry,
            guild_id,
            record,
            handle,
        ),
        _ => registry,
    }
}

/// Takes in how the work of `stage` ended and says what is due next. Where
/// the track was prepared, it is registered for `guild_id` under its record.
pub fn advance<H>(
    stage: PlayStage,
    event: PlayEvent<H>,
    manager: &mut TrackManager<H>,
    guild_id: ServerId,
) -> (next: PlayStage)
    ensures
        final(manager).wf(),
        next == next_stage(stage, event),
        final(manager)@ == next_registry(old(manager)@, guild_id, stage, event),
{
    proof {
        use_type_invariant(&*manager);
    }
    match stage {
        PlayStage::FindSession => match event {
            PlayEvent::SessionFound => PlayStage::OpenRecord,
            PlayEvent::SessionMissing => PlayStage::FindChannel,
            _ => stage,
        },
        PlayStage::FindChannel => match event {
            PlayEvent::ChannelFound { channel } => PlayStage::Join { channel },
            PlayEvent::ChannelMissing => PlayStage::Failed { error: PlayError::NoVoiceChannel },
            _ => stage,
        },
        PlayStage::Join { .. } => match event {
            PlayEvent::Joined => PlayStage::OpenRecord,
            PlayEvent::JoinFailed => PlayStage::Failed { error: PlayError::Connection },
            _ => stage,
        },
        PlayStage::OpenRecord => match event {
            PlayEvent::RecordOpened { record } => PlayStage::PrepareTrack { record },
            PlayEvent::SoundMissing => PlayStage::Failed { error: PlayError::SoundNotFound },
            _ => stage,
        },
        PlayStage::PrepareTrack { record } => match event {
            PlayEvent::TrackPrepared { handle } => {
                manager.register_playback(guild_id, record, handle);
                PlayStage::StartTrack { record }
            },
            PlayEvent::TrackFailed => PlayStage::Failed { error: PlayError::SoundNotFound },
            _ => stage,
        },
        PlayStage::StartTrack { record } => match event {
            PlayEvent::TrackStarted => PlayStage::Done { record },
            _ => stage,
        },
        PlayStage::Done { .. } => stage,
        PlayStage::Failed { .. } => stage,
    }
}

/// The stage and the registry after a sequence of events.
pub open spec fn play_run<H>(
    stage: PlayStage,
    registry: Registry<H>,
    guild_id: ServerId,
    events: Seq<PlayEvent<H>>,
) -> (PlayStage, Registry<H>)
    decreases events.len(),
{
    if events.len() == 0 {
        (stage, registry)
    } else {
        let (before, held) = play_run(stage, registry, guild_id, events.drop_last());
        (next_stage(before, events.last()), next_registry(held, guild_id, before, events.last()))
    }
}

/// A request that has ended stays as it is: no later event changes its
/// result or the registry.
pub proof fn lemma_final_stage_stays<H>(
    stage: PlayStage,
    registry: Registry<H>,
    guild_id: ServerId,
    event: PlayEvent<H>,
)
    requires
        stage.is_final(),
    ensures
        next_stage(stage, event) == stage,
        next_registry(registry, guild_id, stage, event) == registry,
{
}

/// Each failure comes from exactly one answer: no voice channel from a
/// requester who is in none, a connection failure from a join that failed,
/// a missing sound from the history store or from audio that did not open.
pub proof fn lemma_failures<H>(stage: PlayStage, event: PlayEvent<H>)
    requires
        !stage.is_final(),
    ensures
        next_stage(stage, event) == (PlayStage::Failed { error: PlayError::NoVoiceChannel }) <==> (
        stage is FindChannel && event is ChannelMissing),
        next_stage(stage, event) == (PlayStage::Failed { error: PlayError::Connection }) <==> (
        stage is Join && event is JoinFailed),
        next_stage(stage, event) == (PlayStage::Failed { error: PlayError::SoundNotFound }) <==> (
        (stage is OpenRecord && event is SoundMissing) || (stage is PrepareTrack
            && event is TrackFailed)),
{
}

/// The record under which a request has registered its track: that of a
/// request that is about to start the track or has done so.
pub open spec fn registered_record(stage: PlayStage) -> Option<PlaybackId> {
    match stage {
        PlayStage::StartTrack { record } => Some(record),
        PlayStage::Done { record } => Some(record),
        _ => None,
    }
}

/// A play request registers at most one track, and a request that failed
/// has registered none. Whatever events come in, a request that began by
/// looking for the session has either left the registry as it found it, or
/// it has reached the start of its track and the registry holds one more
/// playback on the server, under the record that the request returns.
pub proof fn lemma_play_registers_once<H>(
    registry: Registry<H>,
    guild_id: ServerId,
    events: Seq<PlayEvent<H>>,
)
    requires
        well_formed(registry),
    ensures
        well_formed(play_run(PlayStage::FindSession, registry, guild_id, events).1),
        match registered_record(play_run(PlayStage::FindSession, registry, guild_id, events).0) {
            Some(record) => exists|handle: H|
                play_run(PlayStage::FindSession, registry, guild_id, events).1 == registered(
                    registry,
                    guild_id,
                    record,
                    handle,
                ),
            None => play_run(PlayStage::FindSession, registry, guild_id, events).1 == registry,
        },
    decreases events.len(),
{
    if events.len() > 0 {
        let earlier = events.drop_last();
        lemma_play_registers_once(registry, guild_id, earlier);
        let before = play_run(PlayStage::FindSession, registry, guild_id, earlier);
        let after = play_run(PlayStage::FindSession, registry, guild_id, events);
        match registered_record(after.0) {
            Some(record) => match (before.0, events.last()) {
                (PlayStage::PrepareTrack { record }, PlayEvent::TrackPrepared { handle }) => {
                    // The one step that registers; nothing was registered before it.
                    assert(after.1 == registered(registry, guild_id, record, handle));
                },
                _ => {
                    // Any other step keeps the registry and the record.
                    assert(after.1 == before.1);
                },
            },
            None => {},
        }
    }
}

} // verus!

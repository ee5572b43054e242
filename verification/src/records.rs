//! The rows of the sound library and of the playback history, as plain
//! values. Identifiers of servers and users are unsigned, as the chat
//! service gives them; the database keeps them in signed columns of the same
//! width. Times are microseconds since the Unix epoch, which is as fine as
//! the database keeps them.

use crate::model::{PlaybackId, ServerId};
use vstd::prelude::*;

verus! {

/// The identifier of a user.
pub type UserId = u64;

/// The unsigned identifier that a signed column holds: the same 64 bits.
pub open spec fn id_of_column(column: i64) -> u64 {
    column as u64
}

/// The unsigned identifier that a signed column holds.
pub fn id_from_column(column: i64) -> (id: u64)
    ensures
        id == id_of_column(column),
{
    #[verifier::truncate]
    (column as u64)
}

/// A server that the bot has seen.
#[derive(Clone, Copy, Debug, PartialEq, Eq, Structural)]
pub struct Guild {
    pub id: ServerId,
}

impl Guild {
    /// The server of a row whose `id` column holds `id`.
    pub fn from_columns(id: i64) -> (guild: Self)
        ensures
            guild.id == id_of_column(id),
    {
        Guild { id: id_from_column(id) }
    }
}

/// A sound of a server's library.
#[derive(Debug)]
pub struct Sound {
    pub id: i32,
    pub guild_id: ServerId,
    pub name: String,
    pub source: String,
    pub uploader_id: UserId,
    /// How long the sound plays, in milliseconds.
    pub length: i64,
}

impl Sound {
    /// The sound of a row with these columns.
    pub fn from_columns(
        id: i32,
        guild_id: i64,
        name: String,
        source: String,
        uploader_id: i64,
        length: i64,
    ) -> (sound: Self)
        ensures
            sound.id == id,
            sound.guild_id == id_of_column(guild_id),
            sound.name == name,
            sound.source == source,
            sound.uploader_id == id_of_column(uploader_id),
            sound.length == length,
    {
        Sound {
            id,
            guild_id: id_from_column(guild_id),
            name,
            source,
            uploader_id: id_from_column(uploader_id),
            length,
        }
    }
}

/// The whole milliseconds in a span of `micros` microseconds: what is left
/// of a millisecond is dropped, for a negative span as for a positive one.
pub open spec fn whole_millis(micros: int) -> int {
    if micros >= 0 {
        micros / 1000
    } else {
        -((-micros) / 1000)
    }
}

/// A history record cannot be closed: it is closed already.
#[derive(Clone, Copy, Debug, PartialEq, Eq, Structural)]
pub struct NotFoundError {
    /// The record that was to be closed.
    pub record: PlaybackId,
}

/// One record of the playback history. A record is open from the moment its
/// track starts. It is closed once, by a stop request, which names the
/// stopper, or by the end of the track, which names none; after that it
/// never changes.
#[derive(Clone, Copy, Debug, PartialEq, Eq, Structural)]
pub struct Playback {
    pub id: PlaybackId,
    pub started_at: i64,
    pub stopped_at: Option<i64>,
    pub sound_id: i32,
    pub player_id: UserId,
    pub stopper_id: Option<UserId>,
}

impl Playback {
    /// Only a closed record names a stopper.
    pub open spec fn wf(&self) -> bool {
        self.stopper_id.is_some() ==> self.stopped_at.is_some()
    }

    /// The record of a track that `player_id` started at `started_at`.
    pub fn open(id: PlaybackId, sound_id: i32, player_id: UserId, started_at: i64) -> (playback:
        Self)
        ensures
            playback == (Playback {
                id,
                started_at,
                stopped_at: None,
                sound_id,
                player_id,
                stopper_id: None,
            }),
            playback.wf(),
    {
        Playback { id, started_at, stopped_at: None, sound_id, player_id, stopper_id: None }
    }

    /// The record of a row with these columns.
    pub fn from_columns(
        id: PlaybackId,
        created_at: i64,
        stopped_at: Option<i64>,
        sound_id: i32,
        player_id: i64,
        stopper_id: Option<i64>,
    ) -> (playback: Self)
        ensures
            playback == (Playback {
                id,
                started_at: created_at,
                stopped_at,
                sound_id,
                player_id: id_of_column(player_id),
                stopper_id: match stopper_id {
                    Some(stopper) => Some(id_of_column(stopper)),
                    None => None,
                },
            }),
    {
        let stopper_id = match stopper_id {
            Some(stopper) => Some(id_from_column(stopper)),
            None => None,
        };
        Playback {
            id,
            started_at: created_at,
            stopped_at,
            sound_id,
            player_id: id_from_column(player_id),
            stopper_id,
        }
    }

    /// Whether the record is still open.
    pub fn is_open(&self) -> (open: bool)
        ensures
            open == self.stopped_at.is_none(),
    {
        self.stopped_at.is_none()
    }

    /// Closes the record at `stopped_at`. `stopper_id` is the user who
    /// stopped the track, or `None` where the track ended by itself. A
    /// record that is closed already is left as it is, and the call fails.
    pub fn close(&mut self, stopped_at: i64, stopper_id: Option<UserId>) -> (closed: Result<
        (),
        NotFoundError,
    >)
        ensures
            old(self).stopped_at.is_none() ==> closed.is_ok() && *final(self) == (Playback {
                stopped_at: Some(stopped_at),
                stopper_id,
                ..*old(self)
            }),
            old(self).stopped_at.is_some() ==> closed == Err::<(), NotFoundError>(
                NotFoundError { record: old(self).id },
            ) && *final(self) == *old(self),
            old(self).wf() ==> final(self).wf(),
    {
        if self.stopped_at.is_some() {
            Err(NotFoundError { record: self.id })
        } else {
            self.stopped_at = Some(stopped_at);
            self.stopper_id = stopper_id;
            Ok(())
        }
    }

    /// For how many whole milliseconds the track played: from its start to
    /// the closing of the record. `None` while the record is open.
    pub fn elapsed_millis(&self) -> (elapsed: Option<i64>)
        ensures
            match (self.stopped_at, elapsed) {
                (Some(stopped_at), Some(millis)) => millis == whole_millis(
                    stopped_at - self.started_at,
                ),
                (None, None) => true,
                _ => false,
            },
    {
        match self.stopped_at {
            Some(stopped_at) => {
                let micros: i128 = stopped_at as i128 - self.started_at as i128;
                let millis: i128 = if micros >= 0 {
                    micros / 1000
                } else {
                    -((-micros) / 1000)
                };
                Some(millis as i64)
            },
            None => None,
        }
    }
}

} // verus!

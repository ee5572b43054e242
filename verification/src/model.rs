//! The mathematical model of the registry: a map from a server to the
//! sequence of its running playbacks, oldest first.

use vstd::prelude::*;

verus! {

/// The identifier that the playback history gives to one play attempt.
pub type PlaybackId = i32;

/// The identifier of a server.
pub type ServerId = u64;

/// One running playback: its history record and the handle that controls it.
pub type Running<H> = (PlaybackId, H);

/// The whole registry as a value.
pub type Registry<H> = Map<ServerId, Seq<Running<H>>>;

/// The playbacks that run on `server`: empty where the server has no entry.
pub open spec fn running_on<H>(registry: Registry<H>, server: ServerId) -> Seq<Running<H>> {
    if registry.contains_key(server) {
        registry[server]
    } else {
        Seq::empty()
    }
}

/// The history records of a sequence of playbacks, in the same order.
pub open spec fn ids_of<H>(running: Seq<Running<H>>) -> Seq<PlaybackId> {
    running.map_values(|entry: Running<H>| entry.0)
}

/// A server has an entry only while something runs on it.
pub open spec fn well_formed<H>(registry: Registry<H>) -> bool {
    forall|server: ServerId| #[trigger]
        registry.contains_key(server) ==> registry[server].len() > 0
}

/// The registry once `handle` runs on `server` under the record `id`.
pub open spec fn registered<H>(
    registry: Registry<H>,
    server: ServerId,
    id: PlaybackId,
    handle: H,
) -> Registry<H> {
    registry.insert(server, running_on(registry, server).push((id, handle)))
}

/// The registry once everything on `server` was stopped.
pub open spec fn stopped_all<H>(registry: Registry<H>, server: ServerId) -> Registry<H> {
    registry.remove(server)
}

/// Where the oldest playback with the record `id` stands, if there is one.
pub open spec fn position_of<H>(running: Seq<Running<H>>, id: PlaybackId) -> Option<int> {
    ids_of(running).index_of_first(id)
}

/// The registry once the oldest playback of `server` with the record `id`
/// has ended. Nothing changes where no such playback runs.
pub open spec fn completed<H>(registry: Registry<H>, server: ServerId, id: PlaybackId) -> Registry<
    H,
> {
    match position_of(running_on(registry, server), id) {
        Some(at) => {
            let rest = running_on(registry, server).remove(at);
            if rest.len() == 0 {
                registry.remove(server)
            } else {
                registry.insert(server, rest)
            }
        },
        None => registry,
    }
}

/// Whether a playback with the record `id` runs on `server`. A playback is
/// registered from its registration until a stop request or the end of its
/// track removes it.
pub open spec fn is_registered<H>(registry: Registry<H>, server: ServerId, id: PlaybackId) -> bool {
    ids_of(running_on(registry, server)).contains(id)
}

/// Registering keeps the registry well formed: the entry it writes is never
/// empty.
pub proof fn lemma_registered_well_formed<H>(
    registry: Registry<H>,
    server: ServerId,
    id: PlaybackId,
    handle: H,
)
    requires
        well_formed(registry),
    ensures
        well_formed(registered(registry, server, id, handle)),
        running_on(registered(registry, server, id, handle), server) == running_on(
            registry,
            server,
        ).push((id, handle)),
{
}

/// After a stop request the server has no entry at all, rather than an
/// empty one, and the registry is still well formed.
pub proof fn lemma_stopped_all_leaves_no_entry<H>(registry: Registry<H>, server: ServerId)
    requires
        well_formed(registry),
    ensures
        !stopped_all(registry, server).contains_key(server),
        running_on(stopped_all(registry, server), server) == Seq::<Running<H>>::empty(),
        well_formed(stopped_all(registry, server)),
{
}

/// A stop request for a server on which nothing runs changes nothing: it
/// creates no entry and touches no other.
pub proof fn lemma_stopped_all_on_idle_server<H>(registry: Registry<H>, server: ServerId)
    requires
        well_formed(registry),
        running_on(registry, server).len() == 0,
    ensures
        stopped_all(registry, server) == registry,
        !registry.contains_key(server),
{
}

/// The end of a track keeps the registry well formed, and takes exactly the
/// oldest playback with that record out of the server's sequence.
pub proof fn lemma_completed_well_formed<H>(registry: Registry<H>, server: ServerId, id: PlaybackId)
    requires
        well_formed(registry),
    ensures
        well_formed(completed(registry, server, id)),
        running_on(completed(registry, server, id), server) == match position_of(
            running_on(registry, server),
            id,
        ) {
            Some(at) => running_on(registry, server).remove(at),
            None => running_on(registry, server),
        },
        ids_of(running_on(completed(registry, server, id), server)) == ids_of(
            running_on(registry, server),
        ).remove_value(id),
{
    let before = running_on(registry, server);
    ids_of(before).index_of_first_ensures(id);
}

/// Removal is idempotent. The end of a track whose playback is no longer in
/// the registry, because a stop request or an earlier notification took it
/// out, changes nothing.
pub proof fn lemma_completed_when_absent<H>(registry: Registry<H>, server: ServerId, id: PlaybackId)
    requires
        !ids_of(running_on(registry, server)).contains(id),
    ensures
        position_of(running_on(registry, server), id).is_none(),
        completed(registry, server, id) == registry,
{
    ids_of(running_on(registry, server)).index_of_first_ensures(id);
}

/// A stop request followed by the end of one of the tracks it stopped: the
/// second removal finds nothing and changes nothing.
pub proof fn lemma_completed_after_stopped_all<H>(
    registry: Registry<H>,
    server: ServerId,
    id: PlaybackId,
)
    ensures
        position_of(running_on(stopped_all(registry, server), server), id).is_none(),
        completed(stopped_all(registry, server), server, id) == stopped_all(registry, server),
{
    lemma_completed_when_absent(stopped_all(registry, server), server, id);
}

/// The end of a track followed by a stop request: where records are not
/// shared between playbacks, the stop request no longer reports the record
/// of the track that ended, so no record is counted by both.
pub proof fn lemma_completed_record_not_stopped_again<H>(
    registry: Registry<H>,
    server: ServerId,
    id: PlaybackId,
)
    requires
        ids_of(running_on(registry, server)).no_duplicates(),
    ensures
        !ids_of(running_on(completed(registry, server, id), server)).contains(id),
        ids_of(running_on(completed(registry, server, id), server)).no_duplicates(),
{
    let before = running_on(registry, server);
    let ids = ids_of(before);
    ids.index_of_first_ensures(id);
    match position_of(before, id) {
        Some(at) => {
            let rest = before.remove(at);
            assert forall|k: int| 0 <= k < ids_of(rest).len() implies ids_of(rest)[k] != id by {
                if k < at {
                    assert(ids_of(rest)[k] == ids[k]);
                } else {
                    assert(ids_of(rest)[k] == ids[k + 1]);
                }
            }
            assert forall|j: int, k: int|
                0 <= j < ids_of(rest).len() && 0 <= k < ids_of(rest).len() && j != k implies ids_of(
                rest,
            )[j] != ids_of(rest)[k] by {
                let jj = if j < at { j } else { j + 1 };
                let kk = if k < at { k } else { k + 1 };
                assert(ids_of(rest)[j] == ids[jj]);
                assert(ids_of(rest)[k] == ids[kk]);
            }
        },
        None => {},
    }
}

/// Only a registration brings a record into the registry, and it brings
/// exactly its own.
pub proof fn lemma_registered_brings_its_record<H>(
    registry: Registry<H>,
    target: ServerId,
    new: PlaybackId,
    handle: H,
    server: ServerId,
    id: PlaybackId,
)
    ensures
        is_registered(registered(registry, target, new, handle), server, id) <==> is_registered(
            registry,
            server,
            id,
        ) || (target == server && new == id),
{
    let before = ids_of(running_on(registry, server));
    let after = ids_of(running_on(registered(registry, target, new, handle), server));
    if target == server {
        assert(after =~= before.push(new));
        if before.contains(id) {
            let at = choose|at: int| 0 <= at < before.len() && before[at] == id;
            assert(after[at] == id);
        }
        if new == id {
            assert(after[after.len() - 1] == id);
        }
    }
}

/// Removed is final. A record that is not registered stays so through every
/// stop request and every end of a track, on its own server or another.
pub proof fn lemma_removed_stays_removed<H>(
    registry: Registry<H>,
    server: ServerId,
    id: PlaybackId,
    target: ServerId,
    ended: PlaybackId,
)
    requires
        !is_registered(registry, server, id),
    ensures
        !is_registered(stopped_all(registry, target), server, id),
        !is_registered(completed(registry, target, ended), server, id),
{
    let before = ids_of(running_on(registry, server));
    let after = ids_of(running_on(completed(registry, target, ended), server));
    if target == server {
        ids_of(running_on(registry, target)).index_of_first_ensures(ended);
        match position_of(running_on(registry, target), ended) {
            Some(gone) => {
                assert forall|at: int| 0 <= at < after.len() implies after[at] != id by {
                    if at < gone {
                        assert(after[at] == before[at]);
                    } else {
                        assert(after[at] == before[at + 1]);
                    }
                }
            },
            None => {},
        }
    }
}

} // verus!

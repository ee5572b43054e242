//! The registry of running playbacks, one ordered collection per server.

use crate::model::{
    completed, ids_of, lemma_stopped_all_on_idle_server, position_of, registered, running_on,
    stopped_all, well_formed, PlaybackId, Registry, Running, ServerId,
};
use crate::report::{all_ids, SignalOutcome, StopReport};
use std::collections::HashMap;
use vstd::prelude::*;

verus! {

/// Owns the handle of every running playback, grouped by server.
///
/// The handle type `H` is whatever controls a started track; the registry
/// never looks inside it.
pub struct TrackManager<H> {
    handles: HashMap<ServerId, Vec<Running<H>>>,
}

impl<H> View for TrackManager<H> {
    type V = Registry<H>;

    closed spec fn view(&self) -> Registry<H> {
        registry_of(self.handles)
    }
}

/// The registry that a table of handles stands for.
spec fn registry_of<H>(handles: HashMap<ServerId, Vec<Running<H>>>) -> Registry<H> {
    handles@.map_values(|entries: Vec<Running<H>>| entries@)
}

/// Takes the entries of `guild_id` out of the table: none where it has no
/// entry.
fn take_entries<H>(
    handles: &mut HashMap<ServerId, Vec<Running<H>>>,
    guild_id: ServerId,
) -> (entries: Vec<Running<H>>)
    ensures
        entries@ == running_on(registry_of(*old(handles)), guild_id),
        registry_of(*final(handles)) == stopped_all(registry_of(*old(handles)), guild_id),
{
    match handles.remove(&guild_id) {
        Some(entries) => entries,
        None => Vec::new(),
    }
}

/// Puts `entries` back as the entry of `guild_id`, or leaves the server
/// without an entry where there are none.
fn put_entries<H>(
    handles: &mut HashMap<ServerId, Vec<Running<H>>>,
    guild_id: ServerId,
    entries: Vec<Running<H>>,
)
    ensures
        registry_of(*final(handles)) == if entries@.len() > 0 {
            registry_of(*old(handles)).insert(guild_id, entries@)
        } else {
            registry_of(*old(handles)).remove(guild_id)
        },
{
    if entries.len() > 0 {
        handles.insert(guild_id, entries);
    } else {
        handles.remove(&guild_id);
    }
}

impl<H> TrackManager<H> {
    /// No server keeps an entry without a running playback. This holds of
    /// every registry at all times.
    #[verifier::type_invariant]
    pub open spec fn wf(&self) -> bool {
        well_formed(self@)
    }

    /// The playbacks that run on `server`, oldest first.
    pub open spec fn running(&self, server: ServerId) -> Seq<Running<H>> {
        running_on(self@, server)
    }

    /// The history records of the playbacks that run on `server`.
    pub open spec fn active(&self, server: ServerId) -> Seq<PlaybackId> {
        ids_of(self.running(server))
    }

    /// A registry in which nothing runs.
    pub fn new() -> (manager: Self)
        ensures
            manager@ == Map::<ServerId, Seq<Running<H>>>::empty(),
            manager.wf(),
    {
        let handles = HashMap::new();
        TrackManager { handles }
    }

    /// Whether anything runs on `guild_id`, that is, whether the server has
    /// an entry.
    pub fn is_active(&self, guild_id: ServerId) -> (active: bool)
        ensures
            active == self@.contains_key(guild_id),
            active == (self.active(guild_id).len() > 0),
    {
        proof {
            use_type_invariant(self);
        }
        self.handles.contains_key(&guild_id)
    }

    /// The number of servers on which something runs.
    pub fn server_count(&self) -> (count: usize)
        ensures
            count == self@.len(),
    {
        assert(self@.dom() =~= self.handles@.dom());
        self.handles.len()
    }

    /// The history records of the playbacks that run on `guild_id`, oldest
    /// first.
    pub fn active_playbacks(&self, guild_id: ServerId) -> (ids: Vec<PlaybackId>)
        ensures
            ids@ == self.active(guild_id),
    {
        let mut ids: Vec<PlaybackId> = Vec::new();
        match self.handles.get(&guild_id) {
            Some(entries) => {
                let mut at: usize = 0;
                while at < entries.len()
                    invariant
                        at <= entries.len(),
                        ids@ == ids_of(entries@.take(at as int)),
                    decreases entries.len() - at,
                {
                    ids.push(entries[at].0);
                    at += 1;
                }
            },
            None => {},
        }
        ids
    }

    /// Records that `track_handle` now runs on `guild_id` under the history
    /// record `playback_id`, after everything that already runs there.
    pub fn register_playback(
        &mut self,
        guild_id: ServerId,
        playback_id: PlaybackId,
        track_handle: H,
    )
        ensures
            final(self).wf(),
            final(self)@ == registered(old(self)@, guild_id, playback_id, track_handle),
    {
        proof {
            use_type_invariant(&*self);
        }
        let mut handles = HashMap::new();
        std::mem::swap(&mut handles, &mut self.handles);
        let mut entries = take_entries(&mut handles, guild_id);
        entries.push((playback_id, track_handle));
        put_entries(&mut handles, guild_id, entries);
        self.handles = handles;
    }

    /// Takes every playback of `guild_id` out of the registry and signals
    /// each to stop, oldest first. `signal` delivers one stop signal and says
    /// what came of it; a signal that fails does not keep the others from
    /// being sent, and its playback leaves the registry all the same.
    ///
    /// The report has one line per removed playback, in the order in which
    /// they were registered. Where nothing runs on the server the report is
    /// empty and the registry is unchanged.
    pub fn stop_playback<F: Fn(&H) -> SignalOutcome>(
        &mut self,
        guild_id: ServerId,
        signal: F,
    ) -> (report: StopReport)
        requires
            forall|at: int|
                0 <= at < old(self).running(guild_id).len() ==> signal.requires(
                    (&(#[trigger] old(self).running(guild_id)[at]).1,),
                ),
        ensures
            final(self).wf(),
            final(self)@ == stopped_all(old(self)@, guild_id),
            !final(self)@.contains_key(guild_id),
            old(self).running(guild_id).len() == 0 ==> final(self)@ == old(self)@,
            report@.len() == old(self).running(guild_id).len(),
            all_ids(report@) == old(self).active(guild_id),
            forall|at: int|
                0 <= at < old(self).running(guild_id).len() ==> signal.ensures(
                    (&old(self).running(guild_id)[at].1,),
                    (#[trigger] report@[at]).1,
                ),
    {
        proof {
            use_type_invariant(&*self);
        }
        let mut handles = HashMap::new();
        std::mem::swap(&mut handles, &mut self.handles);
        let entries = take_entries(&mut handles, guild_id);
        proof {
            if old(self).running(guild_id).len() == 0 {
                lemma_stopped_all_on_idle_server(old(self)@, guild_id);
            }
        }
        self.handles = handles;
        let mut report = StopReport::new();
        let mut at: usize = 0;
        while at < entries.len()
            invariant
                at <= entries.len(),
                entries@ == old(self).running(guild_id),
                forall|k: int|
                    0 <= k < entries@.len() ==> signal.requires((&(#[trigger] entries@[k]).1,)),
                report@.len() == at,
                forall|k: int| 0 <= k < at ==> (#[trigger] report@[k]).0 == entries@[k].0,
                forall|k: int|
                    0 <= k < at ==> signal.ensures((&entries@[k].1,), (#[trigger] report@[k]).1),
            decreases entries.len() - at,
        {
            let outcome = signal(&entries[at].1);
            report.record(entries[at].0, outcome);
            at += 1;
        }
        report
    }

    /// Takes the oldest playback of `guild_id` with the record `playback_id`
    /// out of the registry and hands its handle back: this is what the end
    /// of a track does. Where no such playback runs, because a stop request
    /// or an earlier call already removed it, nothing changes and the result
    /// is `None`.
    pub fn finish_playback(&mut self, guild_id: ServerId, playback_id: PlaybackId) -> (handle:
        Option<H>)
        ensures
            final(self).wf(),
            final(self)@ == completed(old(self)@, guild_id, playback_id),
            handle.is_some() == old(self).active(guild_id).contains(playback_id),
            match position_of(old(self).running(guild_id), playback_id) {
                Some(at) => handle == Some(old(self).running(guild_id)[at].1),
                None => handle.is_none(),
            },
    {
        proof {
            use_type_invariant(&*self);
        }
        let mut handles = HashMap::new();
        std::mem::swap(&mut handles, &mut self.handles);
        let mut entries = take_entries(&mut handles, guild_id);
        proof {
            ids_of(entries@).index_of_first_ensures(playback_id);
        }
        let mut at: usize = 0;
        while at < entries.len() && entries[at].0 != playback_id
            invariant
                at <= entries.len(),
                forall|k: int| 0 <= k < at ==> ids_of(entries@)[k] != playback_id,
            decreases entries.len() - at,
        {
            at += 1;
        }
        let handle = if at < entries.len() {
            assert(ids_of(entries@)[at as int] == playback_id);
            Some(entries.remove(at).1)
        } else {
            None
        };
        put_entries(&mut handles, guild_id, entries);
        self.handles = handles;
        handle
    }
}

} // verus!

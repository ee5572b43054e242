//! Sequences of operations. However requests for several servers are
//! interleaved, what runs on one server is what that server's own
//! operations, applied one after the other, leave.

use crate::model::{
    completed, ids_of, lemma_completed_well_formed, position_of, registered, running_on,
    stopped_all, well_formed, PlaybackId, Registry, Running, ServerId,
};
use vstd::prelude::*;

verus! {

/// What one operation does to the playbacks of its server.
pub enum Action<H> {
    /// A track was started under the record `id`.
    Register { id: PlaybackId, handle: H },
    /// Everything on the server was stopped.
    StopAll,
    /// The track with the record `id` ended.
    Complete { id: PlaybackId },
}

/// One operation on the registry.
pub struct Operation<H> {
    pub server: ServerId,
    pub action: Action<H>,
}

/// The playbacks of a server after one action on that server.
pub open spec fn apply<H>(running: Seq<Running<H>>, action: Action<H>) -> Seq<Running<H>> {
    match action {
        Action::Register { id, handle } => running.push((id, handle)),
        Action::StopAll => Seq::empty(),
        Action::Complete { id } => match position_of(running, id) {
            Some(at) => running.remove(at),
            None => running,
        },
    }
}

/// The playbacks of a server after a sequence of actions on that server.
pub open spec fn replay<H>(running: Seq<Running<H>>, actions: Seq<Action<H>>) -> Seq<Running<H>>
    decreases actions.len(),
{
    if actions.len() == 0 {
        running
    } else {
        apply(replay(running, actions.drop_last()), actions.last())
    }
}

/// The registry after one operation: what `register_playback`,
/// `stop_playback` and `finish_playback` leave of it.
pub open spec fn step<H>(registry: Registry<H>, op: Operation<H>) -> Registry<H> {
    match op.action {
        Action::Register { id, handle } => registered(registry, op.server, id, handle),
        Action::StopAll => stopped_all(registry, op.server),
        Action::Complete { id } => completed(registry, op.server, id),
    }
}

/// The registry after a sequence of operations.
pub open spec fn run<H>(registry: Registry<H>, ops: Seq<Operation<H>>) -> Registry<H>
    decreases ops.len(),
{
    if ops.len() == 0 {
        registry
    } else {
        step(run(registry, ops.drop_last()), ops.last())
    }
}

/// The actions that a sequence of operations holds for `server`, in order.
pub open spec fn actions_on<H>(ops: Seq<Operation<H>>, server: ServerId) -> Seq<Action<H>>
    decreases ops.len(),
{
    if ops.len() == 0 {
        Seq::empty()
    } else if ops.last().server == server {
        actions_on(ops.drop_last(), server).push(ops.last().action)
    } else {
        actions_on(ops.drop_last(), server)
    }
}

/// One operation keeps the registry well formed, acts on its own server as
/// `apply` says, and leaves every other server as it was.
pub proof fn lemma_step<H>(registry: Registry<H>, op: Operation<H>, server: ServerId)
    requires
        well_formed(registry),
    ensures
        well_formed(step(registry, op)),
        running_on(step(registry, op), server) == if op.server == server {
            apply(running_on(registry, server), op.action)
        } else {
            running_on(registry, server)
        },
{
    match op.action {
        Action::Register { id, handle } => {},
        Action::StopAll => {},
        Action::Complete { id } => {
            lemma_completed_well_formed(registry, op.server, id);
        },
    }
}

/// Every sequence of operations keeps the registry well formed, and what
/// then runs on a server is the serial replay of that server's own actions:
/// no operation is lost, and operations on other servers change nothing.
pub proof fn lemma_run_is_serial<H>(registry: Registry<H>, ops: Seq<Operation<H>>, server: ServerId)
    requires
        well_formed(registry),
    ensures
        well_formed(run(registry, ops)),
        running_on(run(registry, ops), server) == replay(
            running_on(registry, server),
            actions_on(ops, server),
        ),
    decreases ops.len(),
{
    if ops.len() > 0 {
        lemma_run_is_serial(registry, ops.drop_last(), server);
        lemma_step(run(registry, ops.drop_last()), ops.last(), server);
        if ops.last().server == server {
            let actions = actions_on(ops, server);
            assert(actions.drop_last() =~= actions_on(ops.drop_last(), server));
        }
    }
}

/// The same holds after every prefix of the sequence, and each further
/// operation takes the registry one step on from the prefix before it.
pub proof fn lemma_every_prefix_is_serial<H>(
    registry: Registry<H>,
    ops: Seq<Operation<H>>,
    server: ServerId,
    upto: int,
)
    requires
        well_formed(registry),
        0 <= upto <= ops.len(),
    ensures
        well_formed(run(registry, ops.take(upto))),
        running_on(run(registry, ops.take(upto)), server) == replay(
            running_on(registry, server),
            actions_on(ops.take(upto), server),
        ),
        upto < ops.len() ==> run(registry, ops.take(upto + 1)) == step(
            run(registry, ops.take(upto)),
            ops[upto],
        ),
{
    lemma_run_is_serial(registry, ops.take(upto), server);
    if upto < ops.len() {
        assert(ops.take(upto + 1).drop_last() =~= ops.take(upto));
    }
}

/// Whether every action of the sequence registers a playback.
pub open spec fn all_register<H>(actions: Seq<Action<H>>) -> bool {
    forall|at: int| 0 <= at < actions.len() ==> #[trigger] actions[at] is Register
}

/// The records that a sequence of registrations brings, in order.
pub open spec fn registered_ids<H>(actions: Seq<Action<H>>) -> Seq<PlaybackId> {
    actions.map_values(
        |action: Action<H>|
            match action {
                Action::Register { id, handle } => id,
                _ => 0i32,
            },
    )
}

/// Registrations are never lost. Where all that a sequence of operations
/// does on a server is to register playbacks, however these are interleaved
/// with operations on other servers, the server afterwards runs what it ran
/// before and then every registered playback, in the order of registration.
/// A stop request then reports each of their records.
pub proof fn lemma_registrations_are_kept<H>(
    registry: Registry<H>,
    ops: Seq<Operation<H>>,
    server: ServerId,
)
    requires
        well_formed(registry),
        all_register(actions_on(ops, server)),
    ensures
        ids_of(running_on(run(registry, ops), server)) == ids_of(running_on(registry, server))
            + registered_ids(actions_on(ops, server)),
        running_on(run(registry, ops), server).len() == running_on(registry, server).len()
            + actions_on(ops, server).len(),
{
    lemma_run_is_serial(registry, ops, server);
    lemma_replay_of_registrations(running_on(registry, server), actions_on(ops, server));
}

/// The order in which registrations reach the registry decides the order of
/// the playbacks and nothing else. Two sequences of operations that bring a
/// server the same registrations, in whatever order, leave it with the same
/// records, each as often as in the other.
pub proof fn lemma_registration_order_is_immaterial<H>(
    registry: Registry<H>,
    first: Seq<Operation<H>>,
    second: Seq<Operation<H>>,
    server: ServerId,
)
    requires
        well_formed(registry),
        all_register(actions_on(first, server)),
        all_register(actions_on(second, server)),
        registered_ids(actions_on(first, server)).to_multiset() == registered_ids(
            actions_on(second, server),
        ).to_multiset(),
    ensures
        ids_of(running_on(run(registry, first), server)).to_multiset() == ids_of(
            running_on(run(registry, second), server),
        ).to_multiset(),
{
    let before = ids_of(running_on(registry, server));
    lemma_registrations_are_kept(registry, first, server);
    lemma_registrations_are_kept(registry, second, server);
    vstd::seq_lib::lemma_multiset_commutative(before, registered_ids(actions_on(first, server)));
    vstd::seq_lib::lemma_multiset_commutative(before, registered_ids(actions_on(second, server)));
}

/// Replaying registrations appends their playbacks.
proof fn lemma_replay_of_registrations<H>(running: Seq<Running<H>>, actions: Seq<Action<H>>)
    requires
        all_register(actions),
    ensures
        ids_of(replay(running, actions)) == ids_of(running) + registered_ids(actions),
        replay(running, actions).len() == running.len() + actions.len(),
    decreases actions.len(),
{
    if actions.len() > 0 {
        let earlier = actions.drop_last();
        lemma_replay_of_registrations(running, earlier);
        match actions.last() {
            Action::Register { id, handle } => {
                assert(registered_ids(actions) =~= registered_ids(earlier).push(id));
                assert(ids_of(running) + registered_ids(earlier).push(id) =~= (ids_of(running)
                    + registered_ids(earlier)).push(id));
            },
            _ => {},
        }
    }
}

} // verus!

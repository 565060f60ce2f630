//! What holds of every pool, proved over the state machine of
//! [`crate::state`]. Since the executable pool is specified to move exactly as
//! that machine does, each law holds of every run of the executable pool.

use crate::ledger::{
    after_construction, balanced, can_construct, can_destroy, constructions, counts_of, destructions, lookup,
    Counts, Uuid,
};
use crate::resource::{next_id, ConstructionError, ResourceId};
use crate::state::{
    acquire, acquire_result, elapsed_ms, expire, expire_result, outcome, release, release_result,
    run, share, share_result, step, step_preserves_wf, Expiry, InternalInvariantViolation, Lifecycle, Op,
    Outcome, PoolState, Released, World,
};
use vstd::prelude::*;

verus! {

/// The world after `n` consumers, one after the other, asked for `uuid`.
pub open spec fn acquire_times(w: World, uuid: Uuid, n: nat) -> World
    decreases n,
{
    if n == 0 {
        w
    } else {
        acquire(acquire_times(w, uuid, (n - 1) as nat), uuid)
    }
}

/// The world after one share of `resource` was given back at each instant of
/// `instants`, in order.
pub open spec fn release_times(w: World, resource: ResourceId, instants: Seq<u64>) -> World
    decreases instants.len(),
{
    if instants.len() == 0 {
        w
    } else {
        release(release_times(w, resource, instants.drop_last()), resource, instants.last())
    }
}

/// While at least one share of a key is outstanding, asking for the key does
/// not call the factory: the ledger stays as it is, the consumer gets the very
/// instance that is already shared, and the key has one share more.
pub proof fn single_construction_while_hot(w: World, uuid: Uuid)
    requires
        w.pool.wf(),
        w.pool.shares(uuid) >= 1,
    ensures
        acquire(w, uuid).ledger == w.ledger,
        acquire_result(w, uuid) == Ok::<ResourceId, ConstructionError>(w.pool.prototypes[uuid]),
        acquire(w, uuid).pool.prototypes == w.pool.prototypes,
        acquire(w, uuid).pool.shares(uuid) == w.pool.shares(uuid) + 1,
{
}

/// The same of any number of requests in a row: none of them calls the
/// factory, and each gets the instance that was shared before the first.
pub proof fn repeated_requests_share_one_instance(w: World, uuid: Uuid, n: nat)
    requires
        w.pool.wf(),
        w.pool.shares(uuid) >= 1,
    ensures
        acquire_times(w, uuid, n).pool.wf(),
        acquire_times(w, uuid, n).ledger == w.ledger,
        acquire_times(w, uuid, n).pool.prototypes == w.pool.prototypes,
        acquire_times(w, uuid, n).pool.shares(uuid) == w.pool.shares(uuid) + n,
        acquire_result(acquire_times(w, uuid, n), uuid) == Ok::<ResourceId, ConstructionError>(
            w.pool.prototypes[uuid],
        ),
    decreases n,
{
    if n > 0 {
        let before = acquire_times(w, uuid, (n - 1) as nat);
        repeated_requests_share_one_instance(w, uuid, (n - 1) as nat);
        single_construction_while_hot(before, uuid);
    }
}

/// An operation that leaves a key in use, on that key or on another, leaves
/// the key's instance in place and calls neither factory nor destructor for
/// it.
pub proof fn hot_key_survives_step(w: World, uuid: Uuid, op: Op)
    requires
        w.pool.wf(),
        w.pool.shares(uuid) >= 1,
        step(w, op).pool.shares(uuid) >= 1,
    ensures
        step(w, op).pool.prototypes.contains_key(uuid),
        step(w, op).pool.prototypes[uuid] == w.pool.prototypes[uuid],
        counts_of(step(w, op).ledger, uuid) == counts_of(w.ledger, uuid),
{
    if op.key() != uuid {
        other_keys_untouched(w, op, uuid);
    }
}

/// Whatever else happens to the pool, for as long as a key never runs out of
/// shares its instance is neither replaced nor built again.
///
/// `ops` is any sequence of operations, on any keys, after each of which
/// `uuid` still has a share.
pub proof fn hot_key_keeps_its_instance(w: World, uuid: Uuid, ops: Seq<Op>)
    requires
        w.pool.wf(),
        w.pool.shares(uuid) >= 1,
        forall|n: int| 0 <= n <= ops.len() ==> #[trigger] run(w, ops.take(n)).pool.shares(uuid) >= 1,
    ensures
        run(w, ops).pool.wf(),
        run(w, ops).pool.prototypes.contains_key(uuid),
        run(w, ops).pool.prototypes[uuid] == w.pool.prototypes[uuid],
        constructions(run(w, ops).ledger, uuid) == constructions(w.ledger, uuid),
        destructions(run(w, ops).ledger, uuid) == destructions(w.ledger, uuid),
    decreases ops.len(),
{
    if ops.len() > 0 {
        let earlier = ops.drop_last();
        assert forall|n: int| 0 <= n <= earlier.len() implies #[trigger] run(
            w,
            earlier.take(n),
        ).pool.shares(uuid) >= 1 by {
            assert(earlier.take(n) =~= ops.take(n));
        }
        hot_key_keeps_its_instance(w, uuid, earlier);
        assert(ops.take(ops.len() as int) =~= ops);
        assert(run(w, ops).pool.shares(uuid) >= 1);
        hot_key_survives_step(run(w, earlier), uuid, ops.last());
    }
}

/// Giving the last share back and asking again before the grace period has
/// passed reuses the instance.
///
/// After the release the key is cooling; a timer that fires before the grace
/// period has passed does nothing; the next request gets the instance that
/// was released, the ledger shows no call of the factory or the destructor,
/// and the pending eviction is cancelled: the pool is as it was before the
/// release.
pub proof fn reuse_within_grace_period(w: World, resource: ResourceId, released_at: u64)
    requires
        w.pool.wf(),
        w.pool.holds(resource),
        w.pool.shares(resource.uuid) == 1,
        w.pool.grace_period_ms > 0,
    ensures
        ({
            let uuid = resource.uuid;
            let unused = release(w, resource, released_at);
            &&& release_result(w, resource, released_at) == Ok::<
                Released,
                InternalInvariantViolation,
            >(Released::Cooling { since: released_at })
            &&& unused.pool.lifecycle(uuid) == (Lifecycle::Cooling { since: released_at, resource })
            &&& unused.ledger == w.ledger
            &&& forall|now: u64|
                elapsed_ms(released_at, now) < w.pool.grace_period_ms ==> #[trigger] expire(
                    unused,
                    uuid,
                    now,
                ) == unused
            &&& acquire_result(unused, uuid) == Ok::<ResourceId, ConstructionError>(resource)
            &&& acquire(unused, uuid) == w
        }),
{
}

/// Giving the last share back and letting the grace period pass evicts the
/// instance, once.
///
/// When the timer fires after the grace period the key becomes absent and
/// the ledger shows one destruction more and no construction more. A timer
/// that fires again does nothing. The next request calls the factory: where
/// the factory succeeds, the consumer gets an instance that is not the
/// evicted one, and the ledger shows one construction more.
pub proof fn eviction_after_grace_period(
    w: World,
    resource: ResourceId,
    released_at: u64,
    fired_at: u64,
)
    requires
        w.wf(),
        w.pool.holds(resource),
        w.pool.shares(resource.uuid) == 1,
        elapsed_ms(released_at, fired_at) >= w.pool.grace_period_ms,
    ensures
        ({
            let uuid = resource.uuid;
            let unused = release(w, resource, released_at);
            let evicted = expire(unused, uuid, fired_at);
            let rebuilt = acquire(evicted, uuid);
            &&& evicted.pool.lifecycle(uuid) == Lifecycle::Absent
            &&& destructions(evicted.ledger, uuid) == destructions(w.ledger, uuid) + 1
            &&& constructions(evicted.ledger, uuid) == constructions(w.ledger, uuid)
            &&& forall|later: u64| #[trigger] expire(evicted, uuid, later) == evicted
            &&& forall|later: u64| #[trigger]
                expire_result(evicted, uuid, later) == Expiry::NotDue
            &&& can_construct(evicted.ledger, uuid) ==> {
                &&& acquire_result(evicted, uuid) matches Ok(fresh)
                &&& fresh != resource
                &&& rebuilt.pool.prototypes[uuid] == fresh
                &&& constructions(rebuilt.ledger, uuid) == constructions(w.ledger, uuid) + 1
            }
            &&& !can_construct(evicted.ledger, uuid) ==> {
                &&& acquire_result(evicted, uuid) == Err::<ResourceId, ConstructionError>(
                    ConstructionError { uuid },
                )
                &&& rebuilt == evicted
            }
        }),
{
}

/// However many consumers ask for a key that the pool does not cache, the
/// factory is called once.
///
/// The requests are taken one after the other, as a pool that serves one
/// request at a time per key takes them. Where the factory can build the
/// key, the ledger after `n >= 1` requests shows one construction more, the
/// key has `n` shares, and each consumer got the instance of that one
/// construction.
pub proof fn fan_in_constructs_once(w: World, uuid: Uuid, n: nat)
    requires
        w.pool.wf(),
        !w.pool.prototypes.contains_key(uuid),
        can_construct(w.ledger, uuid),
        n >= 1,
    ensures
        acquire_times(w, uuid, n).pool.wf(),
        acquire_times(w, uuid, n).ledger == after_construction(w.ledger, uuid),
        constructions(acquire_times(w, uuid, n).ledger, uuid) == constructions(w.ledger, uuid) + 1,
        acquire_times(w, uuid, n).pool.shares(uuid) == n,
        acquire_times(w, uuid, n).pool.prototypes[uuid] == next_id(w.ledger, uuid),
        forall|i: nat|
            i < n ==> #[trigger] acquire_result(acquire_times(w, uuid, i), uuid) == Ok::<
                ResourceId,
                ConstructionError,
            >(next_id(w.ledger, uuid)),
    decreases n,
{
    assert(acquire_times(w, uuid, 0) == w);
    if n > 1 {
        let before = acquire_times(w, uuid, (n - 1) as nat);
        fan_in_constructs_once(w, uuid, (n - 1) as nat);
        single_construction_while_hot(before, uuid);
    }
}

/// Where the factory cannot build the key, none of the requests leaves a
/// trace: each fails, and pool and ledger stay as they were.
pub proof fn failed_construction_leaves_no_state(w: World, uuid: Uuid, n: nat)
    requires
        !w.pool.prototypes.contains_key(uuid),
        !can_construct(w.ledger, uuid),
    ensures
        acquire_times(w, uuid, n) == w,
        acquire_result(acquire_times(w, uuid, n), uuid) == Err::<ResourceId, ConstructionError>(
            ConstructionError { uuid },
        ),
    decreases n,
{
    if n > 0 {
        failed_construction_leaves_no_state(w, uuid, (n - 1) as nat);
    }
}

/// An operation on one key leaves every other key as it was: its place in
/// the three stores, and its counters in the ledger.
pub proof fn other_keys_untouched(w: World, op: Op, uuid: Uuid)
    requires
        uuid != op.key(),
    ensures
        step(w, op).pool.prototypes.contains_key(uuid) == w.pool.prototypes.contains_key(uuid),
        step(w, op).pool.prototypes.contains_key(uuid) ==> step(w, op).pool.prototypes[uuid]
            == w.pool.prototypes[uuid],
        step(w, op).pool.live.contains_key(uuid) == w.pool.live.contains_key(uuid),
        step(w, op).pool.shares(uuid) == w.pool.shares(uuid),
        step(w, op).pool.timers.contains_key(uuid) == w.pool.timers.contains_key(uuid),
        step(w, op).pool.timers.contains_key(uuid) ==> step(w, op).pool.timers[uuid]
            == w.pool.timers[uuid],
        step(w, op).pool.lifecycle(uuid) == w.pool.lifecycle(uuid),
        counts_of(step(w, op).ledger, uuid) == counts_of(w.ledger, uuid),
        slice_of(step(w, op), uuid) == slice_of(w, uuid),
        step(w, op).pool.grace_period_ms == w.pool.grace_period_ms,
{
}

/// An operation reports the same whether or not an operation on another key
/// went before it.
pub proof fn independent_outcomes(w: World, a: Op, b: Op)
    requires
        a.key() != b.key(),
    ensures
        outcome(step(w, a), b) == outcome(w, b),
{
    other_keys_untouched(w, a, b.key());
    step_is_local(step(w, a), w, b);
}

/// Operations on different keys do not see each other: each reports what it
/// would have reported had the other not happened, and the world they leave
/// does not depend on which of them came first.
pub proof fn independent_keys(w: World, a: Op, b: Op)
    requires
        a.key() != b.key(),
    ensures
        outcome(step(w, a), b) == outcome(w, b),
        outcome(step(w, b), a) == outcome(w, a),
        step(step(w, a), b) == step(step(w, b), a),
{
    independent_outcomes(w, a, b);
    independent_outcomes(w, b, a);
    let ab = step(step(w, a), b);
    let ba = step(step(w, b), a);
    assert forall|uuid: Uuid| #[trigger] slice_of(ab, uuid) == slice_of(ba, uuid) by {
        if uuid == a.key() {
            // `b` leaves the key of `a` alone, before `a` and after it.
            other_keys_untouched(w, b, uuid);
            other_keys_untouched(step(w, a), b, uuid);
            step_is_local(w, step(w, b), a);
        } else if uuid == b.key() {
            other_keys_untouched(w, a, uuid);
            other_keys_untouched(step(w, b), a, uuid);
            step_is_local(w, step(w, a), b);
        } else {
            other_keys_untouched(w, a, uuid);
            other_keys_untouched(w, b, uuid);
            other_keys_untouched(step(w, a), b, uuid);
            other_keys_untouched(step(w, b), a, uuid);
        }
    }
    equal_slices_equal_worlds(ab, ba);
}

/// All that a world holds about one key.
#[verifier::ext_equal]
pub struct KeySlice {
    pub prototype: Option<ResourceId>,
    pub shares: Option<nat>,
    pub timer: Option<u64>,
    pub counts: Option<Counts>,
}

/// What `w` holds about `uuid`.
pub open spec fn slice_of(w: World, uuid: Uuid) -> KeySlice {
    KeySlice {
        prototype: if w.pool.prototypes.contains_key(uuid) {
            Some(w.pool.prototypes[uuid])
        } else {
            None
        },
        shares: if w.pool.live.contains_key(uuid) {
            Some(w.pool.live[uuid])
        } else {
            None
        },
        timer: if w.pool.timers.contains_key(uuid) {
            Some(w.pool.timers[uuid])
        } else {
            None
        },
        counts: lookup(w.ledger, uuid),
    }
}

/// Two worlds of one grace period that hold the same about every key are
/// the same world.
pub proof fn equal_slices_equal_worlds(v: World, w: World)
    requires
        v.pool.grace_period_ms == w.pool.grace_period_ms,
        forall|uuid: Uuid| #[trigger] slice_of(v, uuid) == slice_of(w, uuid),
    ensures
        v == w,
{
    assert forall|uuid: Uuid|
        #![trigger v.pool.prototypes.contains_key(uuid)]
        #![trigger w.pool.prototypes.contains_key(uuid)]
        v.pool.prototypes.contains_key(uuid) == w.pool.prototypes.contains_key(uuid) && (
        v.pool.prototypes.contains_key(uuid) ==> v.pool.prototypes[uuid]
            == w.pool.prototypes[uuid]) by {
        assert(slice_of(v, uuid).prototype == slice_of(w, uuid).prototype);
    }
    assert forall|uuid: Uuid|
        #![trigger v.pool.live.contains_key(uuid)]
        #![trigger w.pool.live.contains_key(uuid)]
        v.pool.live.contains_key(uuid) == w.pool.live.contains_key(uuid) && (
        v.pool.live.contains_key(uuid) ==> v.pool.live[uuid] == w.pool.live[uuid]) by {
        assert(slice_of(v, uuid).shares == slice_of(w, uuid).shares);
    }
    assert forall|uuid: Uuid|
        #![trigger v.pool.timers.contains_key(uuid)]
        #![trigger w.pool.timers.contains_key(uuid)]
        v.pool.timers.contains_key(uuid) == w.pool.timers.contains_key(uuid) && (
        v.pool.timers.contains_key(uuid) ==> v.pool.timers[uuid] == w.pool.timers[uuid]) by {
        assert(slice_of(v, uuid).timer == slice_of(w, uuid).timer);
    }
    assert forall|uuid: Uuid|
        #![trigger v.ledger.contains_key(uuid)]
        #![trigger w.ledger.contains_key(uuid)]
        v.ledger.contains_key(uuid) == w.ledger.contains_key(uuid) && (v.ledger.contains_key(uuid)
            ==> v.ledger[uuid] == w.ledger[uuid]) by {
        assert(slice_of(v, uuid).counts == slice_of(w, uuid).counts);
    }
}

/// What an operation does to its key depends on nothing but what the world
/// holds about that key, and the grace period.
pub proof fn step_is_local(v: World, w: World, op: Op)
    requires
        v.pool.grace_period_ms == w.pool.grace_period_ms,
        slice_of(v, op.key()) == slice_of(w, op.key()),
    ensures
        slice_of(step(v, op), op.key()) == slice_of(step(w, op), op.key()),
        outcome(v, op) == outcome(w, op),
{
}

/// Each release takes exactly one share away, and only the one that takes
/// the last share away starts the eviction.
///
/// `instants` holds the instants of as many releases as the key has shares,
/// or fewer. While shares remain, prototype and ledger are as before and no
/// timer runs for the key. With the last share the key starts cooling at the
/// instant of that release, or, with a grace period of zero, is evicted then.
pub proof fn release_exactly_once(w: World, resource: ResourceId, instants: Seq<u64>)
    requires
        w.pool.wf(),
        w.pool.holds(resource),
        instants.len() <= w.pool.shares(resource.uuid),
    ensures
        ({
            let uuid = resource.uuid;
            let after = release_times(w, resource, instants);
            &&& after.pool.wf()
            &&& after.pool.grace_period_ms == w.pool.grace_period_ms
            &&& after.pool.shares(uuid) == w.pool.shares(uuid) - instants.len()
            &&& instants.len() < w.pool.shares(uuid) ==> {
                &&& after.pool.holds(resource)
                &&& after.pool.prototypes == w.pool.prototypes
                &&& after.pool.timers == w.pool.timers
                &&& !after.pool.timers.contains_key(uuid)
                &&& after.ledger == w.ledger
            }
            &&& instants.len() == w.pool.shares(uuid) && w.pool.grace_period_ms > 0 ==> {
                &&& after.pool.lifecycle(uuid) == (Lifecycle::Cooling {
                    since: instants.last(),
                    resource,
                })
                &&& after.ledger == w.ledger
            }
            &&& instants.len() == w.pool.shares(uuid) && w.pool.grace_period_ms == 0 ==> {
                &&& after.pool.lifecycle(uuid) == Lifecycle::Absent
            }
        }),
    decreases instants.len(),
{
    if instants.len() > 0 {
        release_exactly_once(w, resource, instants.drop_last());
    }
}

/// Once the last share is back, one release more is refused and changes
/// nothing: no share is ever given back twice.
pub proof fn release_without_share_is_refused(w: World, resource: ResourceId, now: u64)
    requires
        w.pool.wf(),
        w.pool.shares(resource.uuid) == 0,
    ensures
        release(w, resource, now) == w,
        release_result(w, resource, now) == Err::<Released, InternalInvariantViolation>(
            InternalInvariantViolation { resource },
        ),
{
}

/// Duplicating a share and giving one back cancel out.
pub proof fn share_then_release(w: World, resource: ResourceId, now: u64)
    requires
        w.pool.wf(),
        w.pool.holds(resource),
    ensures
        share(w, resource).pool.shares(resource.uuid) == w.pool.shares(resource.uuid) + 1,
        release(share(w, resource), resource, now) == w,
        release_result(share(w, resource), resource, now) == Ok::<
            Released,
            InternalInvariantViolation,
        >(Released::StillShared { remaining: w.pool.shares(resource.uuid) as usize }),
{
}

/// A key that is in use has no eviction pending, and no operation evicts it:
/// a timer that fires for it, at whatever instant, does nothing.
pub proof fn in_use_is_never_evicted(w: World, uuid: Uuid, now: u64)
    requires
        w.pool.wf(),
        w.pool.shares(uuid) >= 1,
    ensures
        !w.pool.timers.contains_key(uuid),
        expire(w, uuid, now) == w,
        expire_result(w, uuid, now) == Expiry::NotDue,
{
}

/// When a request and the eviction timer of a cooling key race, exactly one
/// of them wins, whichever comes first.
///
/// If the timer comes first it evicts, and the request finds the key absent
/// and has a new instance built. If the request comes first it cancels the
/// eviction and reuses the instance, and the timer finds nothing to do. In
/// neither order is the instance both reused and destroyed, and in neither
/// is it left behind without a share: afterwards the key is in use, with one
/// share, and the ledger shows one instance more built than destroyed, as
/// before.
pub proof fn eviction_race_has_one_winner(w: World, uuid: Uuid, now: u64)
    requires
        w.wf(),
        w.pool.due(uuid, now),
        can_construct(w.ledger, uuid),
    ensures
        ({
            let cached = w.pool.prototypes[uuid];
            let timer_first = acquire(expire(w, uuid, now), uuid);
            let request_first = expire(acquire(w, uuid), uuid, now);
            &&& expire_result(w, uuid, now) == (Expiry::Evicted { resource: cached, fault: None })
            &&& acquire_result(expire(w, uuid, now), uuid) == Ok::<ResourceId, ConstructionError>(
                next_id(w.ledger, uuid),
            )
            &&& next_id(w.ledger, uuid) != cached
            &&& timer_first.pool.lifecycle(uuid) == (Lifecycle::Active {
                shares: 1,
                resource: next_id(w.ledger, uuid),
            })
            &&& constructions(timer_first.ledger, uuid) == constructions(w.ledger, uuid) + 1
            &&& destructions(timer_first.ledger, uuid) == destructions(w.ledger, uuid) + 1
            &&& acquire_result(w, uuid) == Ok::<ResourceId, ConstructionError>(cached)
            &&& expire_result(acquire(w, uuid), uuid, now) == Expiry::NotDue
            &&& request_first.pool.lifecycle(uuid) == (Lifecycle::Active {
                shares: 1,
                resource: cached,
            })
            &&& request_first.ledger == w.ledger
        }),
{
}

/// The ledger holds nothing but what this pool did: each key has exactly one
/// instance more built than destroyed while the pool caches it, and as many
/// built as destroyed while it does not; and the cached instance is the
/// last one built.
pub open spec fn exclusive(w: World) -> bool {
    &&& w.pool.wf()
    &&& forall|uuid: Uuid| #[trigger]
        counts_of(w.ledger, uuid).0 == counts_of(w.ledger, uuid).1 + (if w.pool.prototypes.contains_key(
            uuid,
        ) {
            1int
        } else {
            0int
        })
    &&& forall|uuid: Uuid| #[trigger]
        w.pool.prototypes.contains_key(uuid) ==> w.pool.prototypes[uuid].generation
            == counts_of(w.ledger, uuid).0
}

/// A pool that starts empty with a ledger of its own never leaks an instance
/// and never destroys one twice: after any sequence of operations every
/// instance that was built has been destroyed exactly once, but for the one
/// that the pool still caches for its key. No destructor ever reports a
/// fault there.
pub proof fn every_instance_is_destroyed_once(grace_period_ms: u64, ops: Seq<Op>)
    ensures
        exclusive(run(World { pool: PoolState::empty(grace_period_ms), ledger: Map::empty() }, ops)),
        run(World { pool: PoolState::empty(grace_period_ms), ledger: Map::empty() }, ops).wf(),
    decreases ops.len(),
{
    let start = World { pool: PoolState::empty(grace_period_ms), ledger: Map::empty() };
    if ops.len() > 0 {
        every_instance_is_destroyed_once(grace_period_ms, ops.drop_last());
        exclusive_is_kept(run(start, ops.drop_last()), ops.last());
    }
    exclusive_is_well_formed(run(start, ops));
}

/// In an exclusive world pool and ledger agree with each other.
pub proof fn exclusive_is_well_formed(w: World)
    requires
        exclusive(w),
    ensures
        w.wf(),
{
    assert forall|uuid: Uuid| #[trigger] w.ledger.contains_key(uuid) implies w.ledger[uuid].1
        <= w.ledger[uuid].0 by {
        // The counters of `uuid`, of which `exclusive` speaks.
        let counts = counts_of(w.ledger, uuid).0;
    }
}

/// Every operation keeps the ledger of an exclusive world exact, and its
/// destructor, where it is called, reports no fault.
pub proof fn exclusive_is_kept(w: World, op: Op)
    requires
        exclusive(w),
    ensures
        exclusive(step(w, op)),
        outcome(w, op) matches Outcome::Expire(Expiry::Evicted { fault, .. }) ==> fault.is_none(),
        outcome(w, op) matches Outcome::Release(Ok(Released::Evicted { fault })) ==> fault.is_none(),
{
    let after = step(w, op);
    assert forall|uuid: Uuid|
        (#[trigger] counts_of(after.ledger, uuid).0) == counts_of(after.ledger, uuid).1 + (
        if after.pool.prototypes.contains_key(uuid) {
            1int
        } else {
            0int
        }) && (after.pool.prototypes.contains_key(uuid) ==> after.pool.prototypes[uuid].generation
            == counts_of(after.ledger, uuid).0) by {
        // What the ledger held for `uuid` before the operation.
        let before = counts_of(w.ledger, uuid).0;
    }
}

/// The ledger of a world that started balanced stays balanced.
pub proof fn ledger_stays_balanced(w: World, op: Op)
    requires
        balanced(w.ledger),
    ensures
        balanced(step(w, op).ledger),
{
}

} // verus!

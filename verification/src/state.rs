//! The pool as a mathematical state machine.
//!
//! A [`PoolState`] is the bookkeeping of a pool; a [`World`] pairs it with the
//! ledger that the factory and the destructor write to. Each operation of the
//! pool is a function from one world to the next, together with a function
//! that gives the operation's result. The executable pool is specified to
//! move exactly as these functions say.

use crate::ledger::{
    after_construction, after_destruction, balanced, can_construct, can_destroy, constructions,
    Counts, Uuid,
};
use crate::resource::{next_id, ConstructionError, DestructionFault, ResourceId};
use vstd::prelude::*;

verus! {

/// A share was handed back that the pool does not know: its key has no
/// outstanding share, or the key's current instance is another one.
#[derive(Clone, Copy, Debug, PartialEq, Eq, Structural)]
pub struct InternalInvariantViolation {
    pub resource: ResourceId,
}

/// What giving a share back led to.
#[derive(Clone, Copy, Debug, PartialEq, Eq, Structural)]
pub enum Released {
    /// Other shares of the key remain.
    StillShared { remaining: usize },
    /// It was the last share: the key is unused since `since`, and its
    /// resource is kept until the grace period has passed.
    Cooling { since: u64 },
    /// It was the last share and the grace period is zero: the resource was
    /// removed from the pool and handed to the destructor at once.
    Evicted { fault: Option<DestructionFault> },
}

/// What the firing of a key's eviction timer led to.
#[derive(Clone, Copy, Debug, PartialEq, Eq, Structural)]
pub enum Expiry {
    /// Nothing: the key has no pending eviction (it is in use again or is
    /// gone), or its grace period has not passed yet.
    NotDue,
    /// The key's resource was removed from the pool and handed to the
    /// destructor, which may have reported a fault.
    Evicted { resource: ResourceId, fault: Option<DestructionFault> },
}

/// Where a key stands in its life within a pool.
#[derive(Clone, Copy, Debug, PartialEq, Eq, Structural)]
pub enum Lifecycle {
    /// The pool holds no resource for the key.
    Absent,
    /// `shares` consumers hold the key's resource.
    Active { shares: usize, resource: ResourceId },
    /// Nobody holds the key's resource since `since`; it awaits reuse or
    /// eviction.
    Cooling { since: u64, resource: ResourceId },
}

/// Milliseconds from `since` to `now` on a clock that never runs backwards;
/// zero where `now` is the earlier of the two.
pub open spec fn elapsed_ms(since: u64, now: u64) -> nat {
    if now >= since {
        (now - since) as nat
    } else {
        0
    }
}

/// The bookkeeping of a pool.
#[verifier::ext_equal]
pub struct PoolState {
    /// How long an unused resource is kept, in milliseconds.
    pub grace_period_ms: u64,
    /// Prototype store: the instance cached for each key.
    pub prototypes: Map<Uuid, ResourceId>,
    /// Live registry: the number of outstanding shares of each key in use.
    pub live: Map<Uuid, nat>,
    /// Eviction timers: for each unused key, the instant of its last release.
    pub timers: Map<Uuid, u64>,
}

impl PoolState {
    /// The state of a pool that caches nothing.
    pub open spec fn empty(grace_period_ms: u64) -> PoolState {
        PoolState {
            grace_period_ms,
            prototypes: Map::empty(),
            live: Map::empty(),
            timers: Map::empty(),
        }
    }

    /// The three stores agree: every cached instance belongs to its key and
    /// is either in use or awaiting eviction, never both; a share count is
    /// never zero; and a timer only runs where the grace period is not zero.
    pub open spec fn wf(self) -> bool {
        &&& forall|uuid: Uuid| #[trigger]
            self.prototypes.contains_key(uuid) ==> {
                &&& self.prototypes[uuid].uuid == uuid
                &&& self.live.contains_key(uuid) != self.timers.contains_key(uuid)
            }
        &&& forall|uuid: Uuid| #[trigger]
            self.live.contains_key(uuid) ==> {
                &&& self.live[uuid] > 0
                &&& self.prototypes.contains_key(uuid)
            }
        &&& forall|uuid: Uuid| #[trigger]
            self.timers.contains_key(uuid) ==> {
                &&& self.grace_period_ms > 0
                &&& self.prototypes.contains_key(uuid)
            }
    }

    /// Number of outstanding shares of `uuid`.
    pub open spec fn shares(self, uuid: Uuid) -> nat {
        if self.live.contains_key(uuid) {
            self.live[uuid]
        } else {
            0
        }
    }

    /// `resource` is the instance that the pool caches for its key, and that
    /// key is in use.
    pub open spec fn holds(self, resource: ResourceId) -> bool {
        &&& self.live.contains_key(resource.uuid)
        &&& self.prototypes.contains_key(resource.uuid)
        &&& self.prototypes[resource.uuid] == resource
    }

    /// The eviction timer of `uuid` is pending and its grace period has
    /// passed at `now`.
    pub open spec fn due(self, uuid: Uuid, now: u64) -> bool {
        &&& self.timers.contains_key(uuid)
        &&& self.prototypes.contains_key(uuid)
        &&& elapsed_ms(self.timers[uuid], now) >= self.grace_period_ms
    }

    /// The state after a holder of `resource` duplicated its share.
    pub open spec fn with_share(self, resource: ResourceId) -> PoolState {
        if self.holds(resource) {
            PoolState {
                live: self.live.insert(resource.uuid, self.live[resource.uuid] + 1),
                ..self
            }
        } else {
            self
        }
    }

    /// What duplicating a share of `resource` gives: the same instance, or
    /// the violation where the pool does not hold it.
    pub open spec fn share_result(self, resource: ResourceId) -> Result<
        ResourceId,
        InternalInvariantViolation,
    > {
        if self.holds(resource) {
            Ok(resource)
        } else {
            Err(InternalInvariantViolation { resource })
        }
    }

    /// Where `uuid` stands in its life.
    pub open spec fn lifecycle(self, uuid: Uuid) -> Lifecycle {
        if !self.prototypes.contains_key(uuid) {
            Lifecycle::Absent
        } else if self.live.contains_key(uuid) {
            Lifecycle::Active {
                shares: self.live[uuid] as usize,
                resource: self.prototypes[uuid],
            }
        } else {
            Lifecycle::Cooling { since: self.timers[uuid], resource: self.prototypes[uuid] }
        }
    }
}

/// A pool together with the ledger of its factory and destructor.
#[verifier::ext_equal]
pub struct World {
    pub pool: PoolState,
    pub ledger: Map<Uuid, Counts>,
}

impl World {
    /// The pool's stores agree, the ledger is balanced, and the ledger
    /// accounts for every cached instance: it has seen the instance's
    /// construction and has yet to see its destruction.
    pub open spec fn wf(self) -> bool {
        &&& self.pool.wf()
        &&& balanced(self.ledger)
        &&& forall|uuid: Uuid| #[trigger]
            self.pool.prototypes.contains_key(uuid) ==> {
                &&& self.pool.prototypes[uuid].generation <= constructions(self.ledger, uuid)
                &&& can_destroy(self.ledger, uuid)
            }
    }
}

/// The world after a consumer asked for `uuid`.
///
/// A cached instance is reused: the key gains a share and a pending eviction
/// is cancelled. Otherwise the factory is called; if it fails nothing changes.
pub open spec fn acquire(w: World, uuid: Uuid) -> World {
    if w.pool.prototypes.contains_key(uuid) {
        World {
            pool: PoolState {
                live: w.pool.live.insert(uuid, w.pool.shares(uuid) + 1),
                timers: w.pool.timers.remove(uuid),
                ..w.pool
            },
            ledger: w.ledger,
        }
    } else if can_construct(w.ledger, uuid) {
        World {
            pool: PoolState {
                prototypes: w.pool.prototypes.insert(uuid, next_id(w.ledger, uuid)),
                live: w.pool.live.insert(uuid, 1),
                ..w.pool
            },
            ledger: after_construction(w.ledger, uuid),
        }
    } else {
        w
    }
}

/// What a consumer that asks for `uuid` gets: the instance it now shares, or
/// the factory's failure.
pub open spec fn acquire_result(w: World, uuid: Uuid) -> Result<ResourceId, ConstructionError> {
    if w.pool.prototypes.contains_key(uuid) {
        Ok(w.pool.prototypes[uuid])
    } else if can_construct(w.ledger, uuid) {
        Ok(next_id(w.ledger, uuid))
    } else {
        Err(ConstructionError { uuid })
    }
}

/// The world after a holder of `resource` duplicated its share: the pool
/// counts one share more, the ledger is not touched.
pub open spec fn share(w: World, resource: ResourceId) -> World {
    World { pool: w.pool.with_share(resource), ledger: w.ledger }
}

/// What duplicating a share of `resource` gives.
pub open spec fn share_result(w: World, resource: ResourceId) -> Result<
    ResourceId,
    InternalInvariantViolation,
> {
    w.pool.share_result(resource)
}

/// The world after the eviction timer of `uuid` fired at `now`.
///
/// Where the eviction is due the instance leaves the pool and the destructor
/// is called; whether or not the destructor succeeds, the key is then absent.
pub open spec fn expire(w: World, uuid: Uuid, now: u64) -> World {
    if w.pool.due(uuid, now) {
        World {
            pool: PoolState {
                prototypes: w.pool.prototypes.remove(uuid),
                timers: w.pool.timers.remove(uuid),
                ..w.pool
            },
            ledger: if can_destroy(w.ledger, uuid) {
                after_destruction(w.ledger, uuid)
            } else {
                w.ledger
            },
        }
    } else {
        w
    }
}

/// What the firing of the eviction timer of `uuid` at `now` reports.
pub open spec fn expire_result(w: World, uuid: Uuid, now: u64) -> Expiry {
    if w.pool.due(uuid, now) {
        Expiry::Evicted {
            resource: w.pool.prototypes[uuid],
            fault: if can_destroy(w.ledger, uuid) {
                None
            } else {
                Some(DestructionFault { resource: w.pool.prototypes[uuid] })
            },
        }
    } else {
        Expiry::NotDue
    }
}

/// The fault that the destructor reports for `resource`, if any.
pub open spec fn destruction_fault(ledger: Map<Uuid, Counts>, resource: ResourceId) -> Option<
    DestructionFault,
> {
    if can_destroy(ledger, resource.uuid) {
        None
    } else {
        Some(DestructionFault { resource })
    }
}

/// The world in which the last share of `uuid` has just been given back at
/// `now`, before it is looked at whether the eviction is due at once.
pub open spec fn start_cooling(w: World, uuid: Uuid, now: u64) -> World {
    World {
        pool: PoolState {
            live: w.pool.live.remove(uuid),
            timers: w.pool.timers.insert(uuid, now),
            ..w.pool
        },
        ledger: w.ledger,
    }
}

/// The world after a share of `resource` was given back at `now`.
///
/// The key loses one share. With the last share the key starts cooling, and
/// its timer fires on the spot if the grace period is zero.
pub open spec fn release(w: World, resource: ResourceId, now: u64) -> World {
    if !w.pool.holds(resource) {
        w
    } else if w.pool.live[resource.uuid] > 1 {
        World {
            pool: PoolState {
                live: w.pool.live.insert(resource.uuid, (w.pool.live[resource.uuid] - 1) as nat),
                ..w.pool
            },
            ledger: w.ledger,
        }
    } else {
        expire(start_cooling(w, resource.uuid, now), resource.uuid, now)
    }
}

/// What giving back a share of `resource` at `now` reports.
pub open spec fn release_result(w: World, resource: ResourceId, now: u64) -> Result<
    Released,
    InternalInvariantViolation,
> {
    if !w.pool.holds(resource) {
        Err(InternalInvariantViolation { resource })
    } else if w.pool.live[resource.uuid] > 1 {
        Ok(Released::StillShared { remaining: (w.pool.live[resource.uuid] - 1) as usize })
    } else if w.pool.grace_period_ms == 0 {
        Ok(Released::Evicted { fault: destruction_fault(w.ledger, resource) })
    } else {
        Ok(Released::Cooling { since: now })
    }
}

/// One operation on a pool.
pub enum Op {
    /// A consumer asks for the resource of `uuid`.
    Acquire { uuid: Uuid },
    /// A holder of `resource` duplicates its share.
    Share { resource: ResourceId },
    /// A holder of `resource` gives its share back at `now`.
    Release { resource: ResourceId, now: u64 },
    /// The eviction timer of `uuid` fires at `now`.
    Expire { uuid: Uuid, now: u64 },
}

/// What an operation reports to whoever performed it.
pub enum Outcome {
    Acquire(Result<ResourceId, ConstructionError>),
    Share(Result<ResourceId, InternalInvariantViolation>),
    Release(Result<Released, InternalInvariantViolation>),
    Expire(Expiry),
}

impl Op {
    /// The one key that the operation concerns.
    pub open spec fn key(self) -> Uuid {
        match self {
            Op::Acquire { uuid } => uuid,
            Op::Share { resource } => resource.uuid,
            Op::Release { resource, now } => resource.uuid,
            Op::Expire { uuid, now } => uuid,
        }
    }
}

/// The world after `op`.
pub open spec fn step(w: World, op: Op) -> World {
    match op {
        Op::Acquire { uuid } => acquire(w, uuid),
        Op::Share { resource } => share(w, resource),
        Op::Release { resource, now } => release(w, resource, now),
        Op::Expire { uuid, now } => expire(w, uuid, now),
    }
}

/// What `op` reports when performed in `w`.
pub open spec fn outcome(w: World, op: Op) -> Outcome {
    match op {
        Op::Acquire { uuid } => Outcome::Acquire(acquire_result(w, uuid)),
        Op::Share { resource } => Outcome::Share(share_result(w, resource)),
        Op::Release { resource, now } => Outcome::Release(release_result(w, resource, now)),
        Op::Expire { uuid, now } => Outcome::Expire(expire_result(w, uuid, now)),
    }
}

/// The world after the operations of `ops`, performed in order.
pub open spec fn run(w: World, ops: Seq<Op>) -> World
    decreases ops.len(),
{
    if ops.len() == 0 {
        w
    } else {
        step(run(w, ops.drop_last()), ops.last())
    }
}

/// Every operation keeps the three stores in agreement.
pub proof fn step_preserves_wf(w: World, op: Op)
    requires
        w.pool.wf(),
    ensures
        step(w, op).pool.wf(),
        step(w, op).pool.grace_period_ms == w.pool.grace_period_ms,
{
}

/// Every operation keeps pool and ledger in agreement with each other.
pub proof fn step_preserves_world_wf(w: World, op: Op)
    requires
        w.wf(),
    ensures
        step(w, op).wf(),
{
}

/// So does every sequence of operations.
pub proof fn run_preserves_wf(w: World, ops: Seq<Op>)
    requires
        w.pool.wf(),
    ensures
        run(w, ops).pool.wf(),
        run(w, ops).pool.grace_period_ms == w.pool.grace_period_ms,
        w.wf() ==> run(w, ops).wf(),
    decreases ops.len(),
{
    if ops.len() > 0 {
        run_preserves_wf(w, ops.drop_last());
        step_preserves_wf(run(w, ops.drop_last()), ops.last());
        if w.wf() {
            step_preserves_world_wf(run(w, ops.drop_last()), ops.last());
        }
    }
}

} // verus!

//! The executable pool.
//!
//! [`Pool`] keeps the three stores of [`PoolState`] in hash maps and moves
//! exactly as the functions of [`crate::state`] say. Time comes in from
//! outside: whoever gives a share back or lets an eviction timer fire passes
//! the current instant, in milliseconds of a clock that never runs backwards.

use crate::ledger::{after_destruction, can_destroy, Counts, ResourceLedger, Uuid};
use crate::resource::{
    ConstructionError, DestructionFault, ExpensiveResource, ResourceId, RESOURCE_TTL_MS,
};
use crate::state::{
    acquire, acquire_result, destruction_fault, expire, expire_result, release, release_result,
    Expiry, InternalInvariantViolation, Lifecycle, PoolState, Released, World,
};
use std::collections::HashMap;
use vstd::prelude::*;

verus! {

broadcast use vstd::std_specs::hash::group_hash_axioms;

/// One share of a pooled resource.
///
/// A share is obtained from [`Pool::get_resource`] or duplicated with
/// [`Pool::share`], and each one is given back once with [`Pool::release`],
/// which consumes it. It cannot be copied: the only way to a second share
/// goes through the pool, which counts it.
#[derive(Debug)]
pub struct ExpensiveResourceWrapped {
    resource: ResourceId,
}

impl View for ExpensiveResourceWrapped {
    type V = ResourceId;

    closed spec fn view(&self) -> ResourceId {
        self.resource
    }
}

impl ExpensiveResourceWrapped {
    /// The key of the shared resource.
    pub fn uuid(&self) -> (uuid: Uuid)
        ensures
            uuid == self@.uuid,
    {
        self.resource.uuid
    }

    /// The identity of the shared instance.
    pub fn resource_id(&self) -> (id: ResourceId)
        ensures
            id == self@,
    {
        self.resource
    }
}

/// The world made of a pool's state and a ledger's entries.
pub open spec fn world(pool: PoolState, ledger: Map<Uuid, Counts>) -> World {
    World { pool, ledger }
}

/// The view of a share that an operation handed out, or the error it gave.
pub open spec fn granted<E>(outcome: Result<ExpensiveResourceWrapped, E>) -> Result<ResourceId, E> {
    match outcome {
        Ok(handle) => Ok(handle@),
        Err(error) => Err(error),
    }
}

/// A cache of expensive resources, shared by key and evicted after a grace
/// period without use.
pub struct Pool {
    grace_period_ms: u64,
    prototypes: HashMap<Uuid, ExpensiveResource>,
    live: HashMap<Uuid, usize>,
    timers: HashMap<Uuid, u64>,
}

impl View for Pool {
    type V = PoolState;

    closed spec fn view(&self) -> PoolState {
        PoolState {
            grace_period_ms: self.grace_period_ms,
            prototypes: Map::new(
                |uuid: Uuid| self.prototypes@.contains_key(uuid),
                |uuid: Uuid| self.prototypes@[uuid]@,
            ),
            live: Map::new(
                |uuid: Uuid| self.live@.contains_key(uuid),
                |uuid: Uuid| self.live@[uuid] as nat,
            ),
            timers: self.timers@,
        }
    }
}

impl Pool {
    /// A pool that keeps no unused resource: the grace period is zero, and a
    /// resource is destroyed as soon as its last share is given back.
    pub fn new() -> (pool: Pool)
        ensures
            pool@ == PoolState::empty(0),
            pool@.wf(),
    {
        Pool::with_grace_period(0)
    }

    /// A pool that keeps an unused resource for `grace_period_ms`
    /// milliseconds before it is destroyed.
    pub fn with_grace_period(grace_period_ms: u64) -> (pool: Pool)
        ensures
            pool@ == PoolState::empty(grace_period_ms),
            pool@.wf(),
    {
        Pool {
            grace_period_ms,
            prototypes: HashMap::new(),
            live: HashMap::new(),
            timers: HashMap::new(),
        }
    }

    /// A pool in postponed mode: it keeps an unused resource for
    /// [`RESOURCE_TTL_MS`] milliseconds before it is destroyed.
    pub fn postponed() -> (pool: Pool)
        ensures
            pool@ == PoolState::empty(RESOURCE_TTL_MS),
            pool@.wf(),
    {
        Pool::with_grace_period(RESOURCE_TTL_MS)
    }

    /// The configured grace period, in milliseconds.
    pub fn grace_period_ms(&self) -> (grace: u64)
        ensures
            grace == self@.grace_period_ms,
    {
        self.grace_period_ms
    }

    /// Number of outstanding shares of `uuid`.
    pub fn share_count(&self, uuid: Uuid) -> (shares: usize)
        ensures
            shares == self@.shares(uuid),
    {
        match self.live.get(&uuid) {
            Some(shares) => *shares,
            None => 0,
        }
    }

    /// Where `uuid` stands in its life.
    pub fn lifecycle(&self, uuid: Uuid) -> (phase: Lifecycle)
        requires
            self@.wf(),
        ensures
            phase == self@.lifecycle(uuid),
    {
        match self.prototypes.get(&uuid) {
            None => Lifecycle::Absent,
            Some(resource) => {
                let id = resource.id();
                match self.live.get(&uuid) {
                    Some(shares) => Lifecycle::Active { shares: *shares, resource: id },
                    None => {
                        let since = self.timers.get(&uuid).unwrap();
                        Lifecycle::Cooling { since: *since, resource: id }
                    },
                }
            },
        }
    }

    /// The resource behind `handle`, or `None` where the pool does not hold
    /// the instance that `handle` names.
    pub fn resource(&self, handle: &ExpensiveResourceWrapped) -> (found: Option<&ExpensiveResource>)
        ensures
            found.is_some() == self@.holds(handle@),
            found matches Some(resource) ==> resource@ == handle@,
    {
        let uuid = handle.resource.uuid;
        if !self.live.contains_key(&uuid) {
            return None;
        }
        match self.prototypes.get(&uuid) {
            Some(resource) => {
                if resource.generation() == handle.resource.generation && resource.uuid()
                    == handle.resource.uuid {
                    Some(resource)
                } else {
                    None
                }
            },
            None => None,
        }
    }

    /// Hands out a share of the resource of `uuid`.
    ///
    /// Where the pool caches an instance for `uuid` it is reused, in use or
    /// not, and a pending eviction is cancelled: the factory is not called.
    /// Otherwise the factory is called once; if it fails the error is
    /// returned and neither the pool nor the ledger has changed.
    pub fn get_resource(&mut self, uuid: Uuid, ledger: &mut ResourceLedger) -> (acquired: Result<
        ExpensiveResourceWrapped,
        ConstructionError,
    >)
        requires
            old(self)@.wf(),
            old(self)@.shares(uuid) < usize::MAX,
        ensures
            final(self)@.wf(),
            world(final(self)@, final(ledger)@) == acquire(world(old(self)@, old(ledger)@), uuid),
            granted(acquired) == acquire_result(world(old(self)@, old(ledger)@), uuid),
    {
        let cached = match self.prototypes.get(&uuid) {
            Some(resource) => Some(resource.id()),
            None => None,
        };
        match cached {
            Some(id) => {
                let shares = self.share_count(uuid);
                self.timers.remove(&uuid);
                self.live.insert(uuid, shares + 1);
                assert(world(self@, ledger@) =~= acquire(world(old(self)@, old(ledger)@), uuid));
                Ok(ExpensiveResourceWrapped { resource: id })
            },
            None => {
                match ExpensiveResource::new(uuid, ledger) {
                    Ok(resource) => {
                        let id = resource.id();
                        self.prototypes.insert(uuid, resource);
                        self.live.insert(uuid, 1);
                        assert(world(self@, ledger@) =~= acquire(
                            world(old(self)@, old(ledger)@),
                            uuid,
                        ));
                        Ok(ExpensiveResourceWrapped { resource: id })
                    },
                    Err(error) => Err(error),
                }
            },
        }
    }

    /// Duplicates the share `handle`: the key gains one share of the same
    /// instance. Fails, changing nothing, where the pool does not hold the
    /// instance that `handle` names.
    pub fn share(&mut self, handle: &ExpensiveResourceWrapped) -> (shared: Result<
        ExpensiveResourceWrapped,
        InternalInvariantViolation,
    >)
        requires
            old(self)@.wf(),
            old(self)@.shares(handle@.uuid) < usize::MAX,
        ensures
            final(self)@.wf(),
            final(self)@ == old(self)@.with_share(handle@),
            granted(shared) == old(self)@.share_result(handle@),
    {
        let id = handle.resource;
        if self.resource(handle).is_none() {
            return Err(InternalInvariantViolation { resource: id });
        }
        let shares = self.share_count(id.uuid);
        self.live.insert(id.uuid, shares + 1);
        assert(self@ =~= old(self)@.with_share(handle@));
        Ok(ExpensiveResourceWrapped { resource: id })
    }

    /// Lets the eviction timer of `uuid` fire at `now`.
    ///
    /// Where the key is unused and its grace period has passed at `now`, its
    /// resource leaves the pool and is handed to the destructor; the key is
    /// then absent whether or not the destructor reports a fault. In every
    /// other case (the key is in use again, is gone, or its grace period has
    /// not passed) nothing happens.
    pub fn expire(&mut self, uuid: Uuid, now: u64, ledger: &mut ResourceLedger) -> (expiry: Expiry)
        requires
            old(self)@.wf(),
        ensures
            final(self)@.wf(),
            world(final(self)@, final(ledger)@) == expire(
                world(old(self)@, old(ledger)@),
                uuid,
                now,
            ),
            expiry == expire_result(world(old(self)@, old(ledger)@), uuid, now),
    {
        let since = match self.timers.get(&uuid) {
            Some(since) => *since,
            None => {
                return Expiry::NotDue;
            },
        };
        let elapsed: u64 = if now >= since {
            now - since
        } else {
            0
        };
        if elapsed < self.grace_period_ms {
            return Expiry::NotDue;
        }
        self.timers.remove(&uuid);
        let (resource, fault) = self.evict(uuid, ledger);
        assert(world(self@, ledger@) =~= expire(world(old(self)@, old(ledger)@), uuid, now));
        Expiry::Evicted { resource, fault }
    }

    /// Takes the instance cached for `uuid` out of the prototype store and
    /// hands it to the destructor. Returns which instance it was and the
    /// fault that the destructor reported, if any.
    fn evict(&mut self, uuid: Uuid, ledger: &mut ResourceLedger) -> (evicted: (
        ResourceId,
        Option<DestructionFault>,
    ))
        requires
            old(self).prototypes@.contains_key(uuid),
            old(self).prototypes@[uuid]@.uuid == uuid,
        ensures
            final(self).grace_period_ms == old(self).grace_period_ms,
            final(self).live@ == old(self).live@,
            final(self).timers@ == old(self).timers@,
            final(self).prototypes@ == old(self).prototypes@.remove(uuid),
            evicted.0 == old(self).prototypes@[uuid]@,
            evicted.1 == destruction_fault(old(ledger)@, evicted.0),
            final(ledger)@ == (if can_destroy(old(ledger)@, uuid) {
                after_destruction(old(ledger)@, uuid)
            } else {
                old(ledger)@
            }),
    {
        let resource = self.prototypes.remove(&uuid).unwrap();
        let id = resource.id();
        match resource.destroy(ledger) {
            Ok(()) => (id, None),
            Err(fault) => (id, Some(fault)),
        }
    }

    /// Gives the share `handle` back at `now`.
    ///
    /// The key loses one share. If it was the last one the key starts
    /// cooling at `now`; with a grace period of zero its resource is evicted
    /// on the spot. Fails, changing nothing, where the pool does not hold the
    /// instance that `handle` names.
    pub fn release(
        &mut self,
        handle: ExpensiveResourceWrapped,
        now: u64,
        ledger: &mut ResourceLedger,
    ) -> (released: Result<Released, InternalInvariantViolation>)
        requires
            old(self)@.wf(),
        ensures
            final(self)@.wf(),
            world(final(self)@, final(ledger)@) == release(
                world(old(self)@, old(ledger)@),
                handle@,
                now,
            ),
            released == release_result(world(old(self)@, old(ledger)@), handle@, now),
    {
        let id = handle.resource;
        if self.resource(&handle).is_none() {
            return Err(InternalInvariantViolation { resource: id });
        }
        let shares = self.share_count(id.uuid);
        if shares > 1 {
            self.live.insert(id.uuid, shares - 1);
            assert(world(self@, ledger@) =~= release(
                world(old(self)@, old(ledger)@),
                handle@,
                now,
            ));
            return Ok(Released::StillShared { remaining: shares - 1 });
        }
        self.live.remove(&id.uuid);
        if self.grace_period_ms == 0 {
            let (_, fault) = self.evict(id.uuid, ledger);
            assert(world(self@, ledger@) =~= release(
                world(old(self)@, old(ledger)@),
                handle@,
                now,
            ));
            Ok(Released::Evicted { fault })
        } else {
            self.timers.insert(id.uuid, now);
            assert(world(self@, ledger@) =~= release(
                world(old(self)@, old(ledger)@),
                handle@,
                now,
            ));
            Ok(Released::Cooling { since: now })
        }
    }
}

} // verus!

//! The expensive resource itself, and the two ways in which building or
//! tearing one down can fail.

use crate::ledger::{
    after_construction, after_destruction, can_construct, can_destroy, constructions, Counts,
    ResourceLedger, Uuid,
};
use vstd::prelude::*;

verus! {

/// Grace period of a pool in postponed mode: for so many milliseconds a
/// resource that nobody uses any more is kept before it is destroyed.
pub const RESOURCE_TTL_MS: u64 = 250;

/// Names one constructed instance: the key it was built for, and which
/// construction of that key it was, counting from one. Two instances are the
/// same instance exactly if their ids are equal.
#[derive(Clone, Copy, Debug, PartialEq, Eq, Structural)]
pub struct ResourceId {
    pub uuid: Uuid,
    pub generation: usize,
}

/// The factory could not build a resource for `uuid`.
#[derive(Clone, Copy, Debug, PartialEq, Eq, Structural)]
pub struct ConstructionError {
    pub uuid: Uuid,
}

/// The destructor could not tear `resource` down.
#[derive(Clone, Copy, Debug, PartialEq, Eq, Structural)]
pub struct DestructionFault {
    pub resource: ResourceId,
}

/// The id of the instance that the next construction of `uuid` yields.
pub open spec fn next_id(entries: Map<Uuid, Counts>, uuid: Uuid) -> ResourceId {
    ResourceId { uuid, generation: (constructions(entries, uuid) + 1) as usize }
}

/// A resource that is costly to build and is therefore shared and cached.
///
/// It is neither `Clone` nor `Copy`: each value stands for one construction.
pub struct ExpensiveResource {
    uuid: Uuid,
    generation: usize,
}

impl View for ExpensiveResource {
    type V = ResourceId;

    closed spec fn view(&self) -> ResourceId {
        ResourceId { uuid: self.uuid, generation: self.generation }
    }
}

impl ExpensiveResource {
    /// Builds the resource for `uuid` and records the construction in
    /// `ledger`. Fails, leaving the ledger untouched, exactly where the
    /// ledger's construction counter for `uuid` is exhausted.
    pub fn new(uuid: Uuid, ledger: &mut ResourceLedger) -> (built: Result<Self, ConstructionError>)
        ensures
            crate::ledger::balanced(old(ledger)@) ==> crate::ledger::balanced(final(ledger)@),
            match built {
                Ok(resource) => {
                    &&& can_construct(old(ledger)@, uuid)
                    &&& resource@ == next_id(old(ledger)@, uuid)
                    &&& final(ledger)@ == after_construction(old(ledger)@, uuid)
                },
                Err(error) => {
                    &&& !can_construct(old(ledger)@, uuid)
                    &&& error == (ConstructionError { uuid })
                    &&& final(ledger)@ == old(ledger)@
                },
            },
    {
        match ledger.record_construction(uuid) {
            Some(generation) => Ok(ExpensiveResource { uuid, generation }),
            None => Err(ConstructionError { uuid }),
        }
    }

    /// Tears the resource down and records the destruction in `ledger`.
    /// Fails, leaving the ledger untouched, exactly where the ledger knows of
    /// no construction of this key that is still to be destroyed.
    pub fn destroy(self, ledger: &mut ResourceLedger) -> (torn_down: Result<(), DestructionFault>)
        ensures
            crate::ledger::balanced(old(ledger)@) ==> crate::ledger::balanced(final(ledger)@),
            torn_down.is_ok() == can_destroy(old(ledger)@, self@.uuid),
            torn_down.is_ok() ==> final(ledger)@ == after_destruction(old(ledger)@, self@.uuid),
            torn_down.is_err() ==> final(ledger)@ == old(ledger)@,
            torn_down.is_err() ==> torn_down == Err::<(), DestructionFault>(
                DestructionFault { resource: self@ },
            ),
    {
        if ledger.record_destruction(self.uuid) {
            Ok(())
        } else {
            Err(DestructionFault { resource: self.id() })
        }
    }

    /// The key this resource was built for.
    pub fn uuid(&self) -> (uuid: Uuid)
        ensures
            uuid == self@.uuid,
    {
        self.uuid
    }

    /// Which construction of its key this resource is, counting from one.
    pub fn generation(&self) -> (generation: usize)
        ensures
            generation == self@.generation,
    {
        self.generation
    }

    /// The identity of this instance.
    pub fn id(&self) -> (id: ResourceId)
        ensures
            id == self@,
    {
        ResourceId { uuid: self.uuid, generation: self.generation }
    }
}

} // verus!

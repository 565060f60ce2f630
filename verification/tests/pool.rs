use resource_pool::ledger::ResourceLedger;
use resource_pool::pool::Pool;
use resource_pool::resource::{ConstructionError, ResourceId, RESOURCE_TTL_MS};
use resource_pool::state::{Expiry, InternalInvariantViolation, Lifecycle, Released};

#[test]
fn it_works() {
    let mut ledger = ResourceLedger::new();
    let mut p = Pool::new();
    {
        let r1 = p.get_resource(100, &mut ledger).unwrap();
        let r2 = p.get_resource(100, &mut ledger).unwrap();
        p.release(r2, 0, &mut ledger).unwrap();
        p.release(r1, 0, &mut ledger).unwrap();
    }
    {
        let r1 = p.get_resource(100, &mut ledger).unwrap();
        let r2 = p.get_resource(200, &mut ledger).unwrap();
        let r3 = p.get_resource(200, &mut ledger).unwrap();
        p.release(r3, 0, &mut ledger).unwrap();
        p.release(r2, 0, &mut ledger).unwrap();
        p.release(r1, 0, &mut ledger).unwrap();
    }
    let v = ledger.get(100).unwrap();
    assert_eq!(v.0, 2);
    assert_eq!(v.1, 2);
    let v = ledger.get(200).unwrap();
    assert_eq!(v.0, 1);
    assert_eq!(v.1, 1);
}

#[test]
fn grace_period_example() {
    let mut ledger = ResourceLedger::new();
    let mut p = Pool::with_grace_period(RESOURCE_TTL_MS);
    assert_eq!(p.grace_period_ms(), 250);

    let r1 = p.get_resource(100, &mut ledger).unwrap();
    let r2 = p.get_resource(100, &mut ledger).unwrap();
    let first = r1.resource_id();
    assert_eq!(first, ResourceId { uuid: 100, generation: 1 });
    assert_eq!(r2.resource_id(), first);
    assert_eq!(p.release(r1, 0, &mut ledger), Ok(Released::StillShared { remaining: 1 }));
    assert_eq!(p.release(r2, 0, &mut ledger), Ok(Released::Cooling { since: 0 }));
    assert_eq!(ledger.get(100), Some((1, 0)));

    // 50 ms later the key is asked for again: reused, the factory count stays 1.
    let r3 = p.get_resource(100, &mut ledger).unwrap();
    assert_eq!(r3.resource_id(), first);
    assert_eq!(ledger.get(100), Some((1, 0)));
    // The timer of the first cooling fires although it was cancelled: nothing happens.
    assert_eq!(p.expire(100, 250, &mut ledger), Expiry::NotDue);
    assert_eq!(p.release(r3, 50, &mut ledger), Ok(Released::Cooling { since: 50 }));
    assert_eq!(p.expire(100, 250, &mut ledger), Expiry::NotDue);
    assert_eq!(p.expire(100, 299, &mut ledger), Expiry::NotDue);
    assert_eq!(ledger.get(100), Some((1, 0)));

    // After a further 260 ms without a request the destructor fires.
    assert_eq!(
        p.expire(100, 310, &mut ledger),
        Expiry::Evicted { resource: first, fault: None }
    );
    assert_eq!(p.lifecycle(100), Lifecycle::Absent);
    assert_eq!(ledger.get(100), Some((1, 1)));
    assert_eq!(p.expire(100, 1000, &mut ledger), Expiry::NotDue);
    assert_eq!(ledger.get(100), Some((1, 1)));

    // The next request raises the factory count to 2.
    let r4 = p.get_resource(100, &mut ledger).unwrap();
    assert_eq!(r4.resource_id(), ResourceId { uuid: 100, generation: 2 });
    assert_ne!(r4.resource_id(), first);
    assert_eq!(ledger.get(100), Some((2, 1)));
}

#[test]
fn eviction_at_exactly_the_grace_period() {
    let mut ledger = ResourceLedger::new();
    let mut p = Pool::with_grace_period(250);
    let r = p.get_resource(7, &mut ledger).unwrap();
    let id = r.resource_id();
    assert_eq!(p.release(r, 1000, &mut ledger), Ok(Released::Cooling { since: 1000 }));
    assert_eq!(p.lifecycle(7), Lifecycle::Cooling { since: 1000, resource: id });
    assert_eq!(p.expire(7, 1249, &mut ledger), Expiry::NotDue);
    // A clock reading before the release counts as no time passed.
    assert_eq!(p.expire(7, 10, &mut ledger), Expiry::NotDue);
    assert_eq!(p.expire(7, 1250, &mut ledger), Expiry::Evicted { resource: id, fault: None });
}

#[test]
fn single_construction_while_hot() {
    let mut ledger = ResourceLedger::new();
    let mut p = Pool::with_grace_period(250);
    let first = p.get_resource(5, &mut ledger).unwrap();
    let mut handles = Vec::new();
    for _ in 0..10 {
        let h = p.get_resource(5, &mut ledger).unwrap();
        assert_eq!(h.resource_id(), first.resource_id());
        assert_eq!(h.uuid(), 5);
        handles.push(h);
    }
    assert_eq!(ledger.get(5), Some((1, 0)));
    assert_eq!(p.share_count(5), 11);
    assert_eq!(
        p.lifecycle(5),
        Lifecycle::Active { shares: 11, resource: first.resource_id() }
    );
    let resource = p.resource(&first).unwrap();
    assert_eq!(resource.uuid(), 5);
    assert_eq!(resource.generation(), 1);
    assert_eq!(resource.id(), first.resource_id());
}

#[test]
fn fan_in_constructs_once() {
    let mut ledger = ResourceLedger::new();
    let mut p = Pool::with_grace_period(250);
    assert_eq!(p.lifecycle(42), Lifecycle::Absent);
    let handles: Vec<_> = (0..8).map(|_| p.get_resource(42, &mut ledger).unwrap()).collect();
    assert_eq!(ledger.get(42), Some((1, 0)));
    assert_eq!(p.share_count(42), 8);
    for h in &handles {
        assert_eq!(h.resource_id(), ResourceId { uuid: 42, generation: 1 });
    }
}

#[test]
fn independent_keys() {
    let mut ledger_ab = ResourceLedger::new();
    let mut ab = Pool::with_grace_period(250);
    let a1 = ab.get_resource(1, &mut ledger_ab).unwrap();
    let b1 = ab.get_resource(2, &mut ledger_ab).unwrap();
    let released_a = ab.release(a1, 10, &mut ledger_ab);
    let expired_b = ab.expire(2, 500, &mut ledger_ab);

    let mut ledger_ba = ResourceLedger::new();
    let mut ba = Pool::with_grace_period(250);
    let b2 = ba.get_resource(2, &mut ledger_ba).unwrap();
    let expired_b2 = ba.expire(2, 500, &mut ledger_ba);
    let a2 = ba.get_resource(1, &mut ledger_ba).unwrap();
    let released_a2 = ba.release(a2, 10, &mut ledger_ba);

    assert_eq!(released_a, released_a2);
    assert_eq!(expired_b, expired_b2);
    assert_eq!(b1.resource_id(), b2.resource_id());
    for key in [1, 2, 3] {
        assert_eq!(ab.lifecycle(key), ba.lifecycle(key));
        assert_eq!(ledger_ab.get(key), ledger_ba.get(key));
    }
    assert_eq!(ab.lifecycle(2), Lifecycle::Active { shares: 1, resource: b1.resource_id() });
    assert_eq!(ab.lifecycle(1), Lifecycle::Cooling { since: 10, resource: ResourceId { uuid: 1, generation: 1 } });
}

#[test]
fn release_exactly_once() {
    let mut ledger = ResourceLedger::new();
    let mut p = Pool::with_grace_period(250);
    let first = p.get_resource(9, &mut ledger).unwrap();
    let id = first.resource_id();
    let clone1 = p.share(&first).unwrap();
    let clone2 = p.share(&first).unwrap();
    assert_eq!(clone1.resource_id(), id);
    assert_eq!(clone2.resource_id(), id);
    assert_eq!(p.share_count(9), 3);
    assert_eq!(ledger.get(9), Some((1, 0)));

    assert_eq!(p.release(clone1, 1, &mut ledger), Ok(Released::StillShared { remaining: 2 }));
    assert_eq!(p.lifecycle(9), Lifecycle::Active { shares: 2, resource: id });
    assert_eq!(p.expire(9, 10_000, &mut ledger), Expiry::NotDue);
    assert_eq!(p.release(first, 2, &mut ledger), Ok(Released::StillShared { remaining: 1 }));
    assert_eq!(p.expire(9, 10_000, &mut ledger), Expiry::NotDue);
    assert_eq!(p.release(clone2, 3, &mut ledger), Ok(Released::Cooling { since: 3 }));
    assert_eq!(p.lifecycle(9), Lifecycle::Cooling { since: 3, resource: id });
    assert_eq!(p.share_count(9), 0);
}

#[test]
fn stale_share_is_refused() {
    let mut ledger = ResourceLedger::new();
    let mut p = Pool::new();
    let mut other = Pool::with_grace_period(250);
    let old = p.get_resource(3, &mut ledger).unwrap();
    let old_id = old.resource_id();
    let foreign = other.get_resource(4, &mut ledger).unwrap();

    // A share of a key that this pool does not hold.
    assert!(p.resource(&foreign).is_none());
    assert_eq!(
        p.share(&foreign).map(|h| h.resource_id()),
        Err(InternalInvariantViolation { resource: foreign.resource_id() })
    );
    let foreign_id = foreign.resource_id();
    assert_eq!(
        p.release(foreign, 0, &mut ledger),
        Err(InternalInvariantViolation { resource: foreign_id })
    );
    assert_eq!(p.lifecycle(3), Lifecycle::Active { shares: 1, resource: old_id });

    // A share of an instance that has been replaced since.
    let sibling = other.get_resource(3, &mut ledger).unwrap();
    assert_eq!(sibling.resource_id(), ResourceId { uuid: 3, generation: 2 });
    assert_eq!(
        p.release(sibling, 0, &mut ledger),
        Err(InternalInvariantViolation { resource: ResourceId { uuid: 3, generation: 2 } })
    );
    assert_eq!(p.release(old, 0, &mut ledger), Ok(Released::Evicted { fault: None }));
    assert_eq!(p.lifecycle(3), Lifecycle::Absent);
}

#[test]
fn construction_failure_leaves_no_state() {
    let mut ledger = ResourceLedger::new();
    assert_eq!(ledger.insert(11, (usize::MAX, 3)), None);
    let mut p = Pool::with_grace_period(250);
    let failed = p.get_resource(11, &mut ledger).map(|h| h.resource_id());
    assert_eq!(failed, Err(ConstructionError { uuid: 11 }));
    assert_eq!(p.lifecycle(11), Lifecycle::Absent);
    assert_eq!(p.share_count(11), 0);
    assert_eq!(p.expire(11, u64::MAX, &mut ledger), Expiry::NotDue);
    assert_eq!(ledger.get(11), Some((usize::MAX, 3)));

    // One below the limit the last construction still succeeds.
    assert_eq!(ledger.insert(12, (usize::MAX - 1, 0)), None);
    let last = p.get_resource(12, &mut ledger).unwrap();
    assert_eq!(last.resource_id(), ResourceId { uuid: 12, generation: usize::MAX });
    assert_eq!(ledger.insert(12, (1, 0)), Some((usize::MAX, 0)));
}

#[test]
fn destruction_fault_still_evicts() {
    let mut ledger = ResourceLedger::new();
    let mut elsewhere = ResourceLedger::new();
    let mut p = Pool::with_grace_period(250);
    let r = p.get_resource(21, &mut ledger).unwrap();
    let id = r.resource_id();
    assert_eq!(p.release(r, 0, &mut ledger), Ok(Released::Cooling { since: 0 }));
    // The destructor is pointed at a ledger that has never seen the key.
    assert_eq!(
        p.expire(21, 250, &mut elsewhere),
        Expiry::Evicted {
            resource: id,
            fault: Some(resource_pool::resource::DestructionFault { resource: id }),
        }
    );
    assert_eq!(p.lifecycle(21), Lifecycle::Absent);
    assert_eq!(elsewhere.get(21), None);
    assert_eq!(ledger.get(21), Some((1, 0)));

    // The same with a grace period of zero, where the release itself evicts.
    let mut q = Pool::new();
    let r = q.get_resource(22, &mut ledger).unwrap();
    let id = r.resource_id();
    assert_eq!(
        q.release(r, 5, &mut elsewhere),
        Ok(Released::Evicted {
            fault: Some(resource_pool::resource::DestructionFault { resource: id })
        })
    );
    assert_eq!(q.lifecycle(22), Lifecycle::Absent);
}

#[test]
fn ledger_counts() {
    let mut ledger = ResourceLedger::new();
    assert_eq!(ledger.get(1), None);
    assert_eq!(ledger.record_construction(1), Some(1));
    assert_eq!(ledger.record_construction(1), Some(2));
    assert_eq!(ledger.get(1), Some((2, 0)));
    assert!(ledger.record_destruction(1));
    assert!(ledger.record_destruction(1));
    assert!(!ledger.record_destruction(1));
    assert_eq!(ledger.get(1), Some((2, 2)));
    assert!(!ledger.record_destruction(2));
    assert_eq!(ledger.get(2), None);
    assert_eq!(ledger.insert(3, (usize::MAX, 0)), None);
    assert_eq!(ledger.record_construction(3), None);
    assert_eq!(ledger.get(3), Some((usize::MAX, 0)));
}

#[test]
fn reuse_before_grace_expiry() {
    let mut ledger = ResourceLedger::new();
    let mut p = Pool::postponed();
    assert_eq!(p.grace_period_ms(), RESOURCE_TTL_MS);
    let r = p.get_resource(8, &mut ledger).unwrap();
    let id = r.resource_id();
    assert_eq!(p.release(r, 100, &mut ledger), Ok(Released::Cooling { since: 100 }));
    assert_eq!(p.expire(8, 349, &mut ledger), Expiry::NotDue);
    let again = p.get_resource(8, &mut ledger).unwrap();
    assert_eq!(again.resource_id(), id);
    assert_eq!(ledger.get(8), Some((1, 0)));
    assert_eq!(p.lifecycle(8), Lifecycle::Active { shares: 1, resource: id });
    // The cancelled timer fires all the same, long after its time: nothing happens.
    assert_eq!(p.expire(8, 100_000, &mut ledger), Expiry::NotDue);
    assert_eq!(p.lifecycle(8), Lifecycle::Active { shares: 1, resource: id });
    assert_eq!(ledger.get(8), Some((1, 0)));
}

#[test]
fn request_and_timer_race() {
    // The timer comes first: the instance is evicted and a new one is built.
    let mut ledger = ResourceLedger::new();
    let mut p = Pool::with_grace_period(250);
    let r = p.get_resource(1, &mut ledger).unwrap();
    let id = r.resource_id();
    p.release(r, 0, &mut ledger).unwrap();
    assert_eq!(p.expire(1, 300, &mut ledger), Expiry::Evicted { resource: id, fault: None });
    let rebuilt = p.get_resource(1, &mut ledger).unwrap();
    assert_ne!(rebuilt.resource_id(), id);
    assert_eq!(ledger.get(1), Some((2, 1)));
    assert_eq!(p.share_count(1), 1);

    // The request comes first, though after the deadline: the instance is
    // reused and the timer finds nothing to do.
    let mut ledger = ResourceLedger::new();
    let mut p = Pool::with_grace_period(250);
    let r = p.get_resource(1, &mut ledger).unwrap();
    let id = r.resource_id();
    p.release(r, 0, &mut ledger).unwrap();
    let reused = p.get_resource(1, &mut ledger).unwrap();
    assert_eq!(reused.resource_id(), id);
    assert_eq!(p.expire(1, 300, &mut ledger), Expiry::NotDue);
    assert_eq!(ledger.get(1), Some((1, 0)));
    assert_eq!(p.share_count(1), 1);
}

#[test]
fn every_instance_is_destroyed_once() {
    let mut ledger = ResourceLedger::new();
    let mut p = Pool::with_grace_period(10);
    let mut now = 0;
    for round in 0..5 {
        let mut held = Vec::new();
        for key in 0..4 {
            for _ in 0..=key {
                held.push(p.get_resource(key, &mut ledger).unwrap());
            }
        }
        for key in 0..4 {
            assert_eq!(ledger.get(key), Some((round + 1, round)));
        }
        for handle in held {
            now += 1;
            p.release(handle, now, &mut ledger).unwrap();
        }
        now += 10;
        for key in 0..4 {
            assert!(matches!(p.expire(key, now, &mut ledger), Expiry::Evicted { fault: None, .. }));
            assert_eq!(ledger.get(key), Some((round + 1, round + 1)));
        }
    }
}

use vstd::prelude::*;
use vstd::rwlock::RwLock;
use crate::region::HitRegion;

verus! {

/// The value held behind the store's lock: the single most recently
/// reported hit region. It carries the store's value semantics — an
/// update replaces the region wholesale (last write wins), and a snapshot
/// copies it wholesale, so all four fields of what a reader sees always
/// come from the same update.
pub struct RegionSlot {
    pub region: HitRegion,
}

impl RegionSlot {
    /// A slot holding `initial`.
    pub fn new(initial: HitRegion) -> (s: RegionSlot)
        ensures
            s.region == initial,
    {
        RegionSlot { region: initial }
    }

    /// Replace the stored region with a whole new value. The previous
    /// value is gone: the slot keeps no history, and the last write wins.
    pub fn update(&mut self, region: HitRegion)
        ensures
            final(self).region == region,
    {
        self.region = region;
    }

    /// A copy of the current region, all four fields from the same update.
    pub fn snapshot(&self) -> (r: HitRegion)
        ensures
            r == self.region,
    {
        self.region
    }
}

/// Thread-safe holder of the current hit region, shared between the
/// inbound bounds-update entry point and the polling loop.
///
/// The slot sits behind a lock, so an update and a snapshot exclude each
/// other: an update puts a whole `RegionSlot` value under the lock's
/// guard, a snapshot copies a whole one out, and no reader can observe a
/// half-written rectangle. The store accepts every rectangle — degenerate
/// regions are legal and simply never hit — so the lock's invariant
/// admits every slot value.
pub struct BoundsStore {
    lock: RwLock<RegionSlot, spec_fn(RegionSlot) -> bool>,
}

impl BoundsStore {
    /// Every slot value is admissible under the store's lock.
    #[verifier::type_invariant]
    spec fn wf(&self) -> bool {
        forall|s: RegionSlot| #[trigger] self.lock.inv(s)
    }

    /// A store holding `initial` until the first update arrives.
    pub fn new(initial: HitRegion) -> (store: BoundsStore)
    {
        let pred = Ghost(|s: RegionSlot| true);
        let lock = RwLock::<RegionSlot, spec_fn(RegionSlot) -> bool>::new(
            RegionSlot::new(initial),
            pred,
        );
        BoundsStore { lock }
    }

    /// Replace the stored region atomically: the next snapshot, and every
    /// later one until the next update, sees exactly this rectangle.
    pub fn update(&self, region: HitRegion)
    {
        proof {
            use_type_invariant(self);
        }
        let (mut slot, handle) = self.lock.acquire_write();
        slot.update(region);
        handle.release_write(slot);
    }

    /// A copy of the current region. The copy is taken under the lock and
    /// handed out by value, so the caller can run the hit test and any
    /// window-system calls without holding the lock.
    pub fn snapshot(&self) -> (r: HitRegion)
    {
        let read_handle = self.lock.acquire_read();
        let r = read_handle.borrow().snapshot();
        read_handle.release_read();
        r
    }
}

} // verus!

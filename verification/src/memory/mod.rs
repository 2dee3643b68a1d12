//! The memory manager: per-VM reservations against the host's free memory,
//! the host pressure level, and balloon reclaim suggestions.
pub mod pressure;

use vstd::prelude::*;
use pressure::{pressure_rank, MemoryPressure};

verus! {

/// Memory manager errors.
#[derive(Debug)]
pub enum MemoryError {
    /// No allocation is registered for this VM.
    VmNotRegistered(u128),
    /// The VM's minimum exceeds the host's free memory.
    InsufficientHostMemory { requested_mib: u64, available_mib: u64 },
    Internal(String),
}

/// Memory reserved for one VM.
#[derive(Debug, Clone, Copy, PartialEq, Eq, Structural)]
pub struct VmMemoryAllocation {
    pub vm_id: u128,
    /// Guest RAM currently allocated, in MiB.
    pub allocated_mib: u64,
    /// Minimum guaranteed allocation.
    pub min_mib: u64,
    /// Maximum allowed allocation.
    pub max_mib: u64,
    pub ballooning_enabled: bool,
    /// Memory returned to the host by the balloon, in MiB.
    pub balloon_size_mib: u64,
    pub huge_pages: bool,
}

/// Host memory as (total, available) MiB. No host probe is made: the
/// manager assumes 8 GiB total with 4 GiB free.
pub fn host_memory_mib() -> (r: (u64, u64))
    ensures
        r == (8192u64, 4096u64),
{
    (8 * 1024, 4 * 1024)
}

/// The pressure level for `available` MiB free out of `total`: more than a
/// quarter free is Low, more than a tenth Medium, more than a twentieth
/// High, otherwise Critical.
pub open spec fn pressure_for(available: u64, total: u64) -> MemoryPressure {
    if 4 * available > total {
        MemoryPressure::Low
    } else if 10 * available > total {
        MemoryPressure::Medium
    } else if 20 * available > total {
        MemoryPressure::High
    } else {
        MemoryPressure::Critical
    }
}

/// MiB a ballooning VM with `allocated` MiB is asked to give back: a tenth,
/// at least 64 and at most 256.
pub open spec fn reclaim_target(allocated: u64) -> u64 {
    let tenth = allocated / 10;
    if tenth < 64 {
        64
    } else if tenth > 256 {
        256
    } else {
        tenth
    }
}

/// The reclaim suggestions for `allocs` under `pressure`: one (id, MiB) pair
/// per ballooning VM, in order, when the pressure is High or Critical.
pub open spec fn reclaim_plan(allocs: Seq<VmMemoryAllocation>, pressure: MemoryPressure) -> Seq<(u128, i64)>
    decreases allocs.len(),
{
    if pressure_rank(pressure) < 2 || allocs.len() == 0 {
        seq![]
    } else {
        let rest = reclaim_plan(allocs.drop_last(), pressure);
        let a = allocs.last();
        if a.ballooning_enabled {
            rest.push((a.vm_id, reclaim_target(a.allocated_mib) as i64))
        } else {
            rest
        }
    }
}

/// The memory manager.
#[derive(Debug)]
pub struct MemoryManager {
    allocations: Vec<VmMemoryAllocation>,
    host_total_mib: u64,
    host_available_mib: u64,
    pressure: MemoryPressure,
    dedup_enabled: bool,
}

impl MemoryManager {
    pub closed spec fn allocs(&self) -> Seq<VmMemoryAllocation> {
        self.allocations@
    }

    pub closed spec fn total(&self) -> u64 {
        self.host_total_mib
    }

    pub closed spec fn available(&self) -> u64 {
        self.host_available_mib
    }

    pub closed spec fn current_pressure(&self) -> MemoryPressure {
        self.pressure
    }

    /// Whether an allocation is registered for `id`.
    pub open spec fn has(&self, id: u128) -> bool {
        exists|i: int| 0 <= i < self.allocs().len() && self.allocs()[i].vm_id == id
    }

    /// The allocation registered for `id`.
    pub open spec fn alloc_of(&self, id: u128) -> VmMemoryAllocation {
        self.allocs()[choose|i: int| 0 <= i < self.allocs().len() && self.allocs()[i].vm_id == id]
    }

    /// One allocation per VM.
    pub open spec fn wf(&self) -> bool {
        forall|i: int, j: int| 0 <= i < self.allocs().len() && 0 <= j < self.allocs().len() && i != j
            ==> self.allocs()[i].vm_id != self.allocs()[j].vm_id
    }

    /// A manager with no allocations, the host's memory and Low pressure.
    pub fn new(dedup_enabled: bool) -> (m: Self)
        ensures
            m.wf(),
            m.allocs().len() == 0,
            m.total() == 8192 && m.available() == 4096,
            m.current_pressure() == MemoryPressure::Low,
    {
        let (total, available) = host_memory_mib();
        MemoryManager {
            allocations: Vec::new(),
            host_total_mib: total,
            host_available_mib: available,
            pressure: MemoryPressure::Low,
            dedup_enabled,
        }
    }

    fn position(&self, id: u128) -> (r: Option<usize>)
        ensures
            r is None ==> !self.has(id),
            r matches Some(i) ==> i < self.allocs().len() && self.allocs()[i as int].vm_id == id,
    {
        let mut i: usize = 0;
        while i < self.allocations.len()
            invariant
                i <= self.allocations@.len(),
                forall|k: int| 0 <= k < i ==> self.allocations@[k].vm_id != id,
            decreases self.allocations@.len() - i,
        {
            if self.allocations[i].vm_id == id {
                return Some(i);
            }
            i = i + 1;
        }
        None
    }

    /// Reserve `min_mib` for VM `vm_id` (replacing any earlier record for
    /// it). Fails when the host has less than `min_mib` free.
    pub fn allocate(&mut self, vm_id: u128, min_mib: u64, max_mib: u64, ballooning: bool, huge_pages: bool)
        -> (r: Result<VmMemoryAllocation, MemoryError>)
        requires
            old(self).wf(),
        ensures
            final(self).wf(),
            final(self).total() == old(self).total(),
            final(self).current_pressure() == old(self).current_pressure(),
            old(self).available() < min_mib ==> (r matches Err(MemoryError::InsufficientHostMemory { requested_mib, available_mib })
                && requested_mib == min_mib && available_mib == old(self).available())
                && final(self).allocs() == old(self).allocs() && final(self).available() == old(self).available(),
            old(self).available() >= min_mib ==> {
                let a = VmMemoryAllocation {
                    vm_id,
                    allocated_mib: min_mib,
                    min_mib,
                    max_mib,
                    ballooning_enabled: ballooning,
                    balloon_size_mib: 0,
                    huge_pages,
                };
                &&& r == Ok::<VmMemoryAllocation, MemoryError>(a)
                &&& final(self).available() == old(self).available() - min_mib
                &&& final(self).has(vm_id) && final(self).alloc_of(vm_id) == a
                &&& forall|id: u128| id != vm_id ==> final(self).has(id) == old(self).has(id)
                    && (old(self).has(id) ==> final(self).alloc_of(id) == old(self).alloc_of(id))
            },
    {
        if self.host_available_mib < min_mib {
            return Err(MemoryError::InsufficientHostMemory { requested_mib: min_mib, available_mib: self.host_available_mib });
        }
        let alloc = VmMemoryAllocation {
            vm_id,
            allocated_mib: min_mib,
            min_mib,
            max_mib,
            ballooning_enabled: ballooning,
            balloon_size_mib: 0,
            huge_pages,
        };
        self.host_available_mib = self.host_available_mib - min_mib;
        let ghost mut p: int = 0;
        match self.position(vm_id) {
            Some(i) => {
                self.allocations.set(i, alloc);
                proof { p = i as int; }
            },
            None => {
                self.allocations.push(alloc);
                proof { p = self.allocations@.len() - 1; }
            },
        }
        proof {
            assert forall|id: u128| id != vm_id implies self.has(id) == old(self).has(id)
                && (old(self).has(id) ==> self.alloc_of(id) == old(self).alloc_of(id)) by {
                if old(self).has(id) {
                    let k = choose|k: int| 0 <= k < old(self).allocs().len() && old(self).allocs()[k].vm_id == id;
                    assert(self.allocs()[k].vm_id == id);
                }
                if self.has(id) {
                    let k = choose|k: int| 0 <= k < self.allocs().len() && self.allocs()[k].vm_id == id;
                    assert(old(self).allocs()[k].vm_id == id);
                }
            }
            assert(self.allocs()[p].vm_id == vm_id);
            let k = choose|k: int| 0 <= k < self.allocs().len() && self.allocs()[k].vm_id == vm_id;
            assert(k == p);
        }
        Ok(alloc)
    }

    /// Release the memory of VM `vm_id`: what it was given, less what its
    /// balloon had already returned, goes back to the host.
    pub fn free(&mut self, vm_id: u128) -> (r: Result<(), MemoryError>)
        requires
            old(self).wf(),
            old(self).has(vm_id) ==> old(self).alloc_of(vm_id).balloon_size_mib <= old(self).alloc_of(vm_id).allocated_mib
                && old(self).available() + old(self).alloc_of(vm_id).allocated_mib - old(self).alloc_of(vm_id).balloon_size_mib <= u64::MAX,
        ensures
            final(self).wf(),
            final(self).total() == old(self).total(),
            final(self).current_pressure() == old(self).current_pressure(),
            !old(self).has(vm_id) ==> (r matches Err(MemoryError::VmNotRegistered(x)) && x == vm_id)
                && final(self).allocs() == old(self).allocs() && final(self).available() == old(self).available(),
            old(self).has(vm_id) ==> r is Ok && !final(self).has(vm_id)
                && final(self).available() == old(self).available() + old(self).alloc_of(vm_id).allocated_mib
                    - old(self).alloc_of(vm_id).balloon_size_mib
                && forall|id: u128| id != vm_id ==> final(self).has(id) == old(self).has(id)
                    && (old(self).has(id) ==> final(self).alloc_of(id) == old(self).alloc_of(id)),
    {
        match self.position(vm_id) {
            None => Err(MemoryError::VmNotRegistered(vm_id)),
            Some(i) => {
                proof {
                    let k = choose|k: int| 0 <= k < self.allocs().len() && self.allocs()[k].vm_id == vm_id;
                    assert(k == i);
                }
                let alloc = self.allocations.remove(i);
                self.host_available_mib = self.host_available_mib + (alloc.allocated_mib - alloc.balloon_size_mib);
                proof {
                    assert forall|id: u128| id != vm_id implies self.has(id) == old(self).has(id)
                        && (old(self).has(id) ==> self.alloc_of(id) == old(self).alloc_of(id)) by {
                        if old(self).has(id) {
                            let k = choose|k: int| 0 <= k < old(self).allocs().len() && old(self).allocs()[k].vm_id == id;
                            if k < i { assert(self.allocs()[k].vm_id == id); } else { assert(self.allocs()[k - 1].vm_id == id); }
                        }
                        if self.has(id) {
                            let k = choose|k: int| 0 <= k < self.allocs().len() && self.allocs()[k].vm_id == id;
                            if k < i { assert(old(self).allocs()[k].vm_id == id); } else { assert(old(self).allocs()[k + 1].vm_id == id); }
                        }
                    }
                    if self.has(vm_id) {
                        let k = choose|k: int| 0 <= k < self.allocs().len() && self.allocs()[k].vm_id == vm_id;
                        if k < i { assert(old(self).allocs()[k].vm_id == vm_id); } else { assert(old(self).allocs()[k + 1].vm_id == vm_id); }
                    }
                }
                Ok(())
            },
        }
    }

    /// Re-read the host's free memory, set the pressure level from it and,
    /// under High or Critical pressure, suggest how much each ballooning VM
    /// should return (positive = inflate the balloon).
    pub fn update_pressure(&mut self) -> (r: Vec<(u128, i64)>)
        requires
            old(self).wf(),
        ensures
            final(self).wf(),
            final(self).allocs() == old(self).allocs(),
            final(self).total() == old(self).total(),
            final(self).available() == 4096,
            final(self).current_pressure() == pressure_for(4096, old(self).total()),
            r@ == reclaim_plan(old(self).allocs(), final(self).current_pressure()),
    {
        let (_, available) = host_memory_mib();
        self.host_available_mib = available;
        let total = self.host_total_mib;
        let a = available as u128;
        let t = total as u128;
        self.pressure = if 4 * a > t {
            MemoryPressure::Low
        } else if 10 * a > t {
            MemoryPressure::Medium
        } else if 20 * a > t {
            MemoryPressure::High
        } else {
            MemoryPressure::Critical
        };
        let mut suggestions: Vec<(u128, i64)> = Vec::new();
        if self.pressure.rank() >= 2 {
            let mut i: usize = 0;
            assert(self.allocations@.subrange(0, 0) =~= Seq::<VmMemoryAllocation>::empty());
            while i < self.allocations.len()
                invariant
                    i <= self.allocations@.len(),
                    pressure_rank(self.pressure) >= 2,
                    suggestions@ == reclaim_plan(self.allocations@.subrange(0, i as int), self.pressure),
                decreases self.allocations@.len() - i,
            {
                let alloc = self.allocations[i];
                assert(self.allocations@.subrange(0, i + 1).drop_last() =~= self.allocations@.subrange(0, i as int));
                if alloc.ballooning_enabled {
                    let tenth = alloc.allocated_mib / 10;
                    let target: u64 = if tenth < 64 { 64 } else if tenth > 256 { 256 } else { tenth };
                    suggestions.push((alloc.vm_id, target as i64));
                }
                i = i + 1;
            }
            assert(self.allocations@.subrange(0, self.allocations@.len() as int) =~= self.allocations@);
        }
        assert(self.allocs() == old(self).allocs());
        suggestions
    }

    /// The current pressure level.
    pub fn pressure(&self) -> (p: MemoryPressure)
        ensures
            p == self.current_pressure(),
    {
        self.pressure
    }

    /// Host (total, available) memory in MiB as the manager sees it.
    pub fn host_memory_mib(&self) -> (r: (u64, u64))
        ensures
            r == (self.total(), self.available()),
    {
        (self.host_total_mib, self.host_available_mib)
    }
}

/// Reserving memory for a VM and then freeing it gives the host back
/// exactly what the reservation took: `m1` is `m0` after a successful
/// `allocate(id, min, ..)` and `m2` is `m1` after `free(id)`.
pub proof fn law_allocate_free_round_trip(m0: MemoryManager, m1: MemoryManager, m2: MemoryManager, id: u128, min_mib: u64)
    requires
        m0.available() >= min_mib,
        m1.available() == m0.available() - min_mib,
        m1.has(id),
        m1.alloc_of(id).allocated_mib == min_mib,
        m1.alloc_of(id).balloon_size_mib == 0,
        m2.available() == m1.available() + m1.alloc_of(id).allocated_mib - m1.alloc_of(id).balloon_size_mib,
    ensures
        m2.available() == m0.available(),
{
}

} // verus!

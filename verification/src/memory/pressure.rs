//! Host memory pressure levels, ordered from Low to Critical.
use vstd::prelude::*;
use core::cmp::Ordering;
use vstd::std_specs::cmp::PartialOrdSpecImpl;

verus! {

/// Host memory pressure level.
#[derive(Debug, Clone, Copy, PartialEq, Eq, Structural, Ord)]
pub enum MemoryPressure {
    /// Plenty of free memory.
    Low,
    /// Moderate pressure.
    Medium,
    /// Critically low: balloons are asked to return memory.
    High,
    /// Out of memory.
    Critical,
}

/// The position of a level in the order Low < Medium < High < Critical.
pub open spec fn pressure_rank(p: MemoryPressure) -> int {
    match p {
        MemoryPressure::Low => 0,
        MemoryPressure::Medium => 1,
        MemoryPressure::High => 2,
        MemoryPressure::Critical => 3,
    }
}

/// The comparison of two levels by rank.
pub open spec fn compare_pressure(a: MemoryPressure, b: MemoryPressure) -> Ordering {
    if pressure_rank(a) < pressure_rank(b) {
        Ordering::Less
    } else if pressure_rank(a) == pressure_rank(b) {
        Ordering::Equal
    } else {
        Ordering::Greater
    }
}

impl MemoryPressure {
    /// The level's rank: Low 0, Medium 1, High 2, Critical 3.
    pub fn rank(&self) -> (r: u8)
        ensures
            r == pressure_rank(*self),
    {
        match self {
            MemoryPressure::Low => 0,
            MemoryPressure::Medium => 1,
            MemoryPressure::High => 2,
            MemoryPressure::Critical => 3,
        }
    }
}

impl PartialOrd for MemoryPressure {
    fn partial_cmp(&self, other: &Self) -> (r: Option<Ordering>) {
        let a = self.rank();
        let b = other.rank();
        if a < b {
            Some(Ordering::Less)
        } else if a == b {
            Some(Ordering::Equal)
        } else {
            Some(Ordering::Greater)
        }
    }
}

impl PartialOrdSpecImpl for MemoryPressure {
    open spec fn obeys_partial_cmp_spec() -> bool {
        true
    }

    open spec fn partial_cmp_spec(&self, other: &Self) -> Option<Ordering> {
        Some(compare_pressure(*self, *other))
    }
}

/// The pressure order is a total order: any two levels compare, and
/// comparing in the other direction gives the reverse answer.
pub proof fn law_pressure_order_total(a: MemoryPressure, b: MemoryPressure)
    ensures
        compare_pressure(a, b) == Ordering::Equal <==> a == b,
        compare_pressure(a, b) == Ordering::Less <==> compare_pressure(b, a) == Ordering::Greater,
{
}

/// The pressure order is transitive.
pub proof fn law_pressure_order_transitive(a: MemoryPressure, b: MemoryPressure, c: MemoryPressure)
    requires
        compare_pressure(a, b) == Ordering::Less,
        compare_pressure(b, c) == Ordering::Less,
    ensures
        compare_pressure(a, c) == Ordering::Less,
{
}

} // verus!

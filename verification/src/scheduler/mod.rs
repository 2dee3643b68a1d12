//! The CPU scheduler's bookkeeping: per-VM scheduling policies, the global
//! overcommit ratio and the host topology. Ratios are carried as the bits
//! of their IEEE-754 single-precision value; the division that turns a
//! policy into a vCPU budget is done by the host.
use vstd::prelude::*;

verus! {

/// Scheduler errors.
#[derive(Debug)]
pub enum SchedulerError {
    VmNotRegistered(u128),
    /// The ratio (single-precision bits) is below 1.0 or not a number.
    InvalidOvercommitRatio(u32),
    Internal(String),
}

/// Scheduling policy of one VM.
#[derive(Debug)]
pub struct VmSchedulingPolicy {
    pub vcpus: u32,
    /// Priority weight (1–100, higher gets more CPU time).
    pub priority: u8,
    /// Host logical processors the VM may use (empty: any).
    pub cpu_affinity: Vec<u32>,
    /// Single-precision bits of a per-VM overcommit ratio overriding the
    /// global one.
    pub overcommit_ratio_bits: Option<u32>,
}

impl Default for VmSchedulingPolicy {
    fn default() -> (p: Self)
        ensures
            p.vcpus == 2 && p.priority == 50 && p.cpu_affinity@.len() == 0 && p.overcommit_ratio_bits is None,
    {
        VmSchedulingPolicy { vcpus: 2, priority: 50, cpu_affinity: Vec::new(), overcommit_ratio_bits: None }
    }
}

/// Host CPU topology.
#[derive(Debug, Clone, Copy, PartialEq, Eq, Structural)]
pub struct CpuTopology {
    pub logical_cpus: u32,
    pub physical_cores: u32,
    pub sockets: u32,
    pub hyperthreading: bool,
}

impl CpuTopology {
    /// The topology assumed for `logical_cpus` logical CPUs: half as many
    /// cores (at least one), one socket, hyperthreading when there is more
    /// than one CPU.
    pub fn from_logical_cpus(logical_cpus: u32) -> (t: Self)
        ensures
            t == (CpuTopology {
                logical_cpus,
                physical_cores: if logical_cpus / 2 < 1 { 1 } else { logical_cpus / 2 },
                sockets: 1,
                hyperthreading: logical_cpus > 1,
            }),
    {
        let half = logical_cpus / 2;
        CpuTopology { logical_cpus, physical_cores: if half < 1 { 1 } else { half }, sockets: 1, hyperthreading: logical_cpus > 1 }
    }
}

/// Whether the single-precision value with bits `b` is at least 1.0: not
/// NaN, not negative, and no smaller than 1.0 (positive infinity counts).
pub open spec fn f32_at_least_one(b: u32) -> bool {
    let nan = b & 0x7F80_0000u32 == 0x7F80_0000u32 && b & 0x007F_FFFFu32 != 0;
    !nan && b < 0x8000_0000u32 && b >= 0x3F80_0000u32
}

/// Whether a single-precision ratio is at least 1.0.
pub fn ratio_at_least_one(b: u32) -> (r: bool)
    ensures
        r == f32_at_least_one(b),
{
    let nan = b & 0x7F80_0000 == 0x7F80_0000 && b & 0x007F_FFFF != 0;
    !nan && b < 0x8000_0000 && b >= 0x3F80_0000
}

/// The sum of the vCPUs of `ps`.
pub open spec fn vcpu_total(ps: Seq<(u128, VmSchedulingPolicy)>) -> int
    decreases ps.len(),
{
    if ps.len() == 0 {
        0
    } else {
        vcpu_total(ps.drop_last()) + ps.last().1.vcpus
    }
}

/// The CPU scheduler.
#[derive(Debug)]
pub struct CpuScheduler {
    policies: Vec<(u128, VmSchedulingPolicy)>,
    global_overcommit_ratio_bits: u32,
    topology: CpuTopology,
}

impl CpuScheduler {
    pub closed spec fn entries(&self) -> Seq<(u128, VmSchedulingPolicy)> {
        self.policies@
    }

    pub closed spec fn global_ratio(&self) -> u32 {
        self.global_overcommit_ratio_bits
    }

    pub closed spec fn host_topology(&self) -> CpuTopology {
        self.topology
    }

    pub open spec fn wf(&self) -> bool {
        forall|i: int, j: int| 0 <= i < self.entries().len() && 0 <= j < self.entries().len() && i != j
            ==> self.entries()[i].0 != self.entries()[j].0
    }

    pub open spec fn has(&self, id: u128) -> bool {
        exists|i: int| 0 <= i < self.entries().len() && self.entries()[i].0 == id
    }

    pub open spec fn policy_of(&self, id: u128) -> VmSchedulingPolicy {
        self.entries()[choose|i: int| 0 <= i < self.entries().len() && self.entries()[i].0 == id].1
    }

    /// A scheduler with the global ratio `ratio_bits` on a host with
    /// `logical_cpus` CPUs; fails unless the ratio is at least 1.0 (so NaN
    /// fails too).
    pub fn new(ratio_bits: u32, logical_cpus: u32) -> (r: Result<Self, SchedulerError>)
        ensures
            !f32_at_least_one(ratio_bits) ==> (r matches Err(SchedulerError::InvalidOvercommitRatio(b)) && b == ratio_bits),
            f32_at_least_one(ratio_bits) ==> (r matches Ok(s) && s.wf() && s.entries().len() == 0
                && s.global_ratio() == ratio_bits
                && s.host_topology() == CpuTopology::from_logical_cpus_spec(logical_cpus)),
    {
        if !ratio_at_least_one(ratio_bits) {
            return Err(SchedulerError::InvalidOvercommitRatio(ratio_bits));
        }
        Ok(CpuScheduler {
            policies: Vec::new(),
            global_overcommit_ratio_bits: ratio_bits,
            topology: CpuTopology::from_logical_cpus(logical_cpus),
        })
    }

    fn position(&self, id: u128) -> (r: Option<usize>)
        ensures
            r is None ==> !self.has(id),
            r matches Some(i) ==> i < self.entries().len() && self.entries()[i as int].0 == id,
    {
        let mut i: usize = 0;
        while i < self.policies.len()
            invariant
                i <= self.policies@.len(),
                forall|k: int| 0 <= k < i ==> self.policies@[k].0 != id,
            decreases self.policies@.len() - i,
        {
            if self.policies[i].0 == id {
                return Some(i);
            }
            i = i + 1;
        }
        None
    }

    /// Register (or replace) the policy of VM `vm_id`.
    pub fn register_vm(&mut self, vm_id: u128, policy: VmSchedulingPolicy)
        requires
            old(self).wf(),
        ensures
            final(self).wf(),
            final(self).has(vm_id) && final(self).policy_of(vm_id) == policy,
            forall|id: u128| id != vm_id ==> final(self).has(id) == old(self).has(id)
                && (old(self).has(id) ==> final(self).policy_of(id) == old(self).policy_of(id)),
            final(self).global_ratio() == old(self).global_ratio(),
            final(self).host_topology() == old(self).host_topology(),
    {
        let ghost mut p: int = 0;
        match self.position(vm_id) {
            Some(i) => {
                self.policies.set(i, (vm_id, policy));
                proof { p = i as int; }
            },
            None => {
                self.policies.push((vm_id, policy));
                proof { p = self.policies@.len() - 1; }
            },
        }
        proof {
            assert(self.entries()[p].0 == vm_id);
            let k = choose|k: int| 0 <= k < self.entries().len() && self.entries()[k].0 == vm_id;
            assert(k == p);
            assert forall|id: u128| id != vm_id implies self.has(id) == old(self).has(id)
                && (old(self).has(id) ==> self.policy_of(id) == old(self).policy_of(id)) by {
                if old(self).has(id) {
                    let k = choose|k: int| 0 <= k < old(self).entries().len() && old(self).entries()[k].0 == id;
                    assert(self.entries()[k].0 == id);
                    let k2 = choose|k: int| 0 <= k < self.entries().len() && self.entries()[k].0 == id;
                    assert(k2 == k);
                }
                if self.has(id) {
                    let k = choose|k: int| 0 <= k < self.entries().len() && self.entries()[k].0 == id;
                    assert(old(self).entries()[k].0 == id);
                }
            }
        }
    }

    /// Forget the policy of VM `vm_id`.
    pub fn deregister_vm(&mut self, vm_id: u128)
        requires
            old(self).wf(),
        ensures
            final(self).wf(),
            !final(self).has(vm_id),
            forall|id: u128| id != vm_id ==> final(self).has(id) == old(self).has(id)
                && (old(self).has(id) ==> final(self).policy_of(id) == old(self).policy_of(id)),
            final(self).global_ratio() == old(self).global_ratio(),
            final(self).host_topology() == old(self).host_topology(),
    {
        if let Some(i) = self.position(vm_id) {
            let _ = self.policies.remove(i);
            proof {
                assert forall|id: u128| id != vm_id implies self.has(id) == old(self).has(id)
                    && (old(self).has(id) ==> self.policy_of(id) == old(self).policy_of(id)) by {
                    if old(self).has(id) {
                        let k = choose|k: int| 0 <= k < old(self).entries().len() && old(self).entries()[k].0 == id;
                        let k2: int = if k < i { k } else { k - 1 };
                        assert(self.entries()[k2].0 == id);
                        let k3 = choose|k: int| 0 <= k < self.entries().len() && self.entries()[k].0 == id;
                        assert(k3 == k2);
                    }
                    if self.has(id) {
                        let k = choose|k: int| 0 <= k < self.entries().len() && self.entries()[k].0 == id;
                        if k < i { assert(old(self).entries()[k].0 == id); } else { assert(old(self).entries()[k + 1].0 == id); }
                    }
                }
                if self.has(vm_id) {
                    let k = choose|k: int| 0 <= k < self.entries().len() && self.entries()[k].0 == vm_id;
                    if k < i { assert(old(self).entries()[k].0 == vm_id); } else { assert(old(self).entries()[k + 1].0 == vm_id); }
                }
            }
        }
    }

    /// Replace the policy of a registered VM; fails for an unknown VM.
    pub fn update_policy(&mut self, vm_id: u128, policy: VmSchedulingPolicy) -> (r: Result<(), SchedulerError>)
        requires
            old(self).wf(),
        ensures
            final(self).wf(),
            !old(self).has(vm_id) ==> (r matches Err(SchedulerError::VmNotRegistered(x)) && x == vm_id)
                && final(self).entries() == old(self).entries(),
            old(self).has(vm_id) ==> r is Ok && final(self).policy_of(vm_id) == policy,
            forall|id: u128| final(self).has(id) == old(self).has(id),
            forall|id: u128| id != vm_id && old(self).has(id) ==> final(self).policy_of(id) == old(self).policy_of(id),
    {
        if self.position(vm_id).is_none() {
            return Err(SchedulerError::VmNotRegistered(vm_id));
        }
        self.register_vm(vm_id, policy);
        Ok(())
    }

    /// The single-precision bits of the overcommit ratio that applies to VM
    /// `vm_id`: its own override, else the global ratio. Its vCPU budget is
    /// its vCPU count divided by this ratio.
    pub fn effective_overcommit_ratio_bits(&self, vm_id: u128) -> (r: Result<(u32, u32), SchedulerError>)
        requires
            self.wf(),
        ensures
            !self.has(vm_id) ==> (r matches Err(SchedulerError::VmNotRegistered(x)) && x == vm_id),
            self.has(vm_id) ==> r == Ok::<(u32, u32), SchedulerError>((
                self.policy_of(vm_id).vcpus,
                match self.policy_of(vm_id).overcommit_ratio_bits {
                    Some(b) => b,
                    None => self.global_ratio(),
                },
            )),
    {
        match self.position(vm_id) {
            None => Err(SchedulerError::VmNotRegistered(vm_id)),
            Some(i) => {
                proof {
                    let k = choose|k: int| 0 <= k < self.entries().len() && self.entries()[k].0 == vm_id;
                    assert(k == i);
                }
                let p = &self.policies[i].1;
                let ratio = match p.overcommit_ratio_bits {
                    Some(b) => b,
                    None => self.global_overcommit_ratio_bits,
                };
                Ok((p.vcpus, ratio))
            },
        }
    }

    /// The vCPUs of all registered VMs together.
    pub fn total_scheduled_vcpus(&self) -> (n: u32)
        requires
            vcpu_total(self.entries()) <= u32::MAX,
        ensures
            n == vcpu_total(self.entries()),
    {
        let mut n: u32 = 0;
        let mut i: usize = 0;
        assert(self.policies@.subrange(0, 0) =~= Seq::<(u128, VmSchedulingPolicy)>::empty());
        while i < self.policies.len()
            invariant
                i <= self.policies@.len(),
                n == vcpu_total(self.policies@.subrange(0, i as int)),
                vcpu_total(self.policies@) <= u32::MAX,
            decreases self.policies@.len() - i,
        {
            assert(self.policies@.subrange(0, i + 1).drop_last() =~= self.policies@.subrange(0, i as int));
            proof {
                lemma_vcpu_total_prefix(self.policies@, i + 1);
            }
            n = n + self.policies[i].1.vcpus;
            i = i + 1;
        }
        assert(self.policies@.subrange(0, i as int) =~= self.policies@);
        n
    }

    /// The host topology.
    pub fn topology(&self) -> (t: CpuTopology)
        ensures
            t == self.host_topology(),
    {
        self.topology
    }
}

impl CpuTopology {
    pub open spec fn from_logical_cpus_spec(logical_cpus: u32) -> CpuTopology {
        CpuTopology {
            logical_cpus,
            physical_cores: if logical_cpus / 2 < 1 { 1 } else { logical_cpus / 2 },
            sockets: 1,
            hyperthreading: logical_cpus > 1,
        }
    }
}

/// The vCPUs of a prefix never exceed those of the whole list.
proof fn lemma_vcpu_total_prefix(ps: Seq<(u128, VmSchedulingPolicy)>, k: int)
    requires
        0 <= k <= ps.len(),
    ensures
        vcpu_total(ps.subrange(0, k)) <= vcpu_total(ps),
    decreases ps.len() - k,
{
    if k < ps.len() {
        lemma_vcpu_total_prefix(ps, k + 1);
        assert(ps.subrange(0, k + 1).drop_last() =~= ps.subrange(0, k));
    } else {
        assert(ps.subrange(0, k) =~= ps);
    }
}

} // verus!

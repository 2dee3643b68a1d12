//! The registry of VMs and the engine's bookkeeping around hypervisor
//! calls. The engine decides; the host performs the hypervisor call it is
//! handed and reports back.
use vstd::prelude::*;
use crate::engine::config::{DiskConfig, FirmwareType, VmConfig};
use crate::engine::error::EngineError;
use dashmap::DashMap;
use crate::engine::vm::{is_refusal, next_state, LifecycleAction, VirtualMachine, VmState};
use crate::hypervisor::types::{CreateVmRequest, FirmwareType as HypFirmware, VmHandle};

verus! {

/// Whether the VMs of `s` have pairwise distinct ids.
pub open spec fn distinct_ids(s: Seq<VirtualMachine>) -> bool {
    forall|i: int, j: int| 0 <= i < s.len() && 0 <= j < s.len() && i != j ==> s[i].vm_id() != s[j].vm_id()
}

/// Registry of all VMs, at most one per id.
pub struct VmRegistry {
    vms: Vec<VirtualMachine>,
}

impl VmRegistry {
    /// The registered VMs, in registration order.
    pub closed spec fn entries(&self) -> Seq<VirtualMachine> {
        self.vms@
    }

    pub open spec fn wf(&self) -> bool {
        distinct_ids(self.entries())
    }

    /// The registered ids.
    pub open spec fn id_set(&self) -> Set<u128> {
        Set::new(|id: u128| self.contains(id))
    }

    /// Whether a VM with `id` is registered.
    pub open spec fn contains(&self, id: u128) -> bool {
        exists|i: int| 0 <= i < self.entries().len() && self.entries()[i].vm_id() == id
    }

    /// The VM registered under `id` (meaningful when `contains(id)`).
    pub open spec fn lookup(&self, id: u128) -> VirtualMachine {
        self.entries()[choose|i: int| 0 <= i < self.entries().len() && self.entries()[i].vm_id() == id]
    }

    /// An empty registry.
    pub fn new() -> (r: Self)
        ensures
            r.wf(),
            r.entries().len() == 0,
    {
        VmRegistry { vms: Vec::new() }
    }

    fn position(&self, id: u128) -> (r: Option<usize>)
        ensures
            r is None ==> !self.contains(id),
            r matches Some(i) ==> i < self.entries().len() && self.entries()[i as int].vm_id() == id,
    {
        let mut i: usize = 0;
        while i < self.vms.len()
            invariant
                i <= self.vms@.len(),
                forall|k: int| 0 <= k < i ==> self.vms@[k].vm_id() != id,
            decreases self.vms@.len() - i,
        {
            if self.vms[i].id() == id {
                return Some(i);
            }
            i = i + 1;
        }
        None
    }

    /// Register `vm`, replacing any VM with the same id, and return its id.
    pub fn insert(&mut self, vm: VirtualMachine) -> (id: u128)
        requires
            old(self).wf(),
        ensures
            final(self).wf(),
            id == vm.vm_id(),
            final(self).contains(id) && final(self).lookup(id) == vm,
            forall|other: u128| other != id ==> (final(self).contains(other) == old(self).contains(other)
                && (old(self).contains(other) ==> final(self).lookup(other) == old(self).lookup(other))),
    {
        let id = vm.id();
        let pos = self.position(id);
        match pos {
            Some(i) => {
                self.vms.set(i, vm);
                assert(self.entries()[i as int].vm_id() == id);
            },
            None => {
                self.vms.push(vm);
                assert(self.entries()[self.entries().len() - 1].vm_id() == id);
            },
        }
        proof {
            assert forall|other: u128| other != id implies (self.contains(other) == old(self).contains(other)
                && (old(self).contains(other) ==> self.lookup(other) == old(self).lookup(other))) by {
                if old(self).contains(other) {
                    let k = choose|k: int| 0 <= k < old(self).entries().len() && old(self).entries()[k].vm_id() == other;
                    assert(self.entries()[k].vm_id() == other);
                }
                if self.contains(other) {
                    let k = choose|k: int| 0 <= k < self.entries().len() && self.entries()[k].vm_id() == other;
                    assert(old(self).entries()[k].vm_id() == other);
                }
            }
            let k = choose|k: int| 0 <= k < self.entries().len() && self.entries()[k].vm_id() == id;
            assert(self.entries()[k] == vm);
        }
        id
    }

    /// The VM registered under `id`, if any.
    pub fn get(&self, id: u128) -> (r: Option<&VirtualMachine>)
        requires
            self.wf(),
        ensures
            !self.contains(id) ==> r is None,
            self.contains(id) ==> (r matches Some(vm) && *vm == self.lookup(id)),
    {
        match self.position(id) {
            Some(i) => Some(&self.vms[i]),
            None => None,
        }
    }

    /// Apply lifecycle action `a` to the VM registered under `id`.
    pub fn apply(&mut self, id: u128, a: LifecycleAction) -> (r: Result<(), EngineError>)
        requires
            old(self).wf(),
        ensures
            final(self).wf(),
            forall|other: u128| #[trigger] final(self).contains(other) == old(self).contains(other),
            forall|other: u128| other != id && old(self).contains(other) ==> final(self).lookup(other) == old(self).lookup(other),
            !old(self).contains(id) ==> (r matches Err(EngineError::VmNotFound(x)) && x == id && final(self).entries() == old(self).entries()),
            old(self).contains(id) ==> {
                let vm = old(self).lookup(id);
                let after = final(self).lookup(id);
                match next_state(vm.vm_state(), a) {
                    Some(s) => r is Ok && after.vm_state() == s && after.same_but_state(&vm),
                    None => (r matches Err(e) && is_refusal(e, a, vm.vm_state())) && after == vm,
                }
            },
    {
        let pos = self.position(id);
        match pos {
            None => Err(EngineError::VmNotFound(id)),
            Some(i) => {
                let ghost before = self.vms@;
                let r = match a {
                    LifecycleAction::Start => self.vms[i].start(),
                    LifecycleAction::Pause => self.vms[i].pause(),
                    LifecycleAction::Resume => self.vms[i].resume(),
                    LifecycleAction::Stop => self.vms[i].stop(),
                    LifecycleAction::Reset => self.vms[i].reset(),
                    LifecycleAction::Destroy => self.vms[i].destroy(),
                };
                proof {
                    assert(self.vms@.len() == before.len());
                    assert forall|k: int| 0 <= k < before.len() && k != i implies self.vms@[k] == before[k] by {}
                    assert(self.vms@[i as int].vm_id() == id);
                    assert forall|other: u128| #[trigger] self.contains(other) == old(self).contains(other) by {
                        if old(self).contains(other) {
                            let k = choose|k: int| 0 <= k < before.len() && before[k].vm_id() == other;
                            assert(self.entries()[k].vm_id() == other);
                        }
                        if self.contains(other) {
                            let k = choose|k: int| 0 <= k < self.entries().len() && self.entries()[k].vm_id() == other;
                            assert(before[k].vm_id() == other);
                        }
                    }
                    let k = choose|k: int| 0 <= k < self.entries().len() && self.entries()[k].vm_id() == id;
                    assert(k == i);
                    let k0 = choose|k: int| 0 <= k < before.len() && before[k].vm_id() == id;
                    assert(k0 == i);
                }
                r
            },
        }
    }

    /// Force the VM registered under `id` into `state` (Stopped or Running),
    /// without checking its current state. Unknown ids are ignored.
    pub fn force_state(&mut self, id: u128, running: bool)
        requires
            old(self).wf(),
        ensures
            final(self).wf(),
            forall|other: u128| #[trigger] final(self).contains(other) == old(self).contains(other),
            forall|other: u128| other != id && old(self).contains(other) ==> final(self).lookup(other) == old(self).lookup(other),
            old(self).contains(id) ==> final(self).lookup(id).vm_state() == (if running { VmState::Running } else { VmState::Stopped })
                && final(self).lookup(id).same_but_state(&old(self).lookup(id)),
    {
        let pos = self.position(id);
        if let Some(i) = pos {
            let ghost before = self.vms@;
            if running {
                self.vms[i].force_running();
            } else {
                self.vms[i].force_stopped();
            }
            proof {
                assert forall|k: int| 0 <= k < before.len() && k != i implies self.vms@[k] == before[k] by {}
                assert(self.vms@[i as int].vm_id() == id);
                assert forall|other: u128| #[trigger] self.contains(other) == old(self).contains(other) by {
                    if old(self).contains(other) {
                        let k = choose|k: int| 0 <= k < before.len() && before[k].vm_id() == other;
                        assert(self.entries()[k].vm_id() == other);
                    }
                    if self.contains(other) {
                        let k = choose|k: int| 0 <= k < self.entries().len() && self.entries()[k].vm_id() == other;
                        assert(before[k].vm_id() == other);
                    }
                }
                let k = choose|k: int| 0 <= k < self.entries().len() && self.entries()[k].vm_id() == id;
                assert(k == i);
                let k0 = choose|k: int| 0 <= k < before.len() && before[k].vm_id() == id;
                assert(k0 == i);
            }
        }
    }

    /// Replace the configuration of the VM registered under `id`; its id,
    /// state, creation time and statistics stay. Unknown ids are ignored.
    pub fn set_config(&mut self, id: u128, config: VmConfig)
        requires
            old(self).wf(),
        ensures
            final(self).wf(),
            forall|other: u128| #[trigger] final(self).contains(other) == old(self).contains(other),
            forall|other: u128| other != id && old(self).contains(other) ==> final(self).lookup(other) == old(self).lookup(other),
            !old(self).contains(id) ==> final(self).entries() == old(self).entries(),
            old(self).contains(id) ==> {
                let before = old(self).lookup(id);
                let after = final(self).lookup(id);
                &&& after.vm_config() == config
                &&& after.vm_id() == id
                &&& after.vm_state() == before.vm_state()
                &&& after.vm_created_at() == before.vm_created_at()
                &&& after.vm_stats() == before.vm_stats()
            },
    {
        let pos = self.position(id);
        if let Some(i) = pos {
            let ghost before = self.vms@;
            *self.vms[i].config_mut() = config;
            proof {
                assert forall|k: int| 0 <= k < before.len() && k != i implies self.vms@[k] == before[k] by {}
                assert(self.vms@[i as int].vm_id() == id);
                assert forall|other: u128| #[trigger] self.contains(other) == old(self).contains(other) by {
                    if old(self).contains(other) {
                        let k = choose|k: int| 0 <= k < before.len() && before[k].vm_id() == other;
                        assert(self.entries()[k].vm_id() == other);
                    }
                    if self.contains(other) {
                        let k = choose|k: int| 0 <= k < self.entries().len() && self.entries()[k].vm_id() == other;
                        assert(before[k].vm_id() == other);
                    }
                }
                let k = choose|k: int| 0 <= k < self.entries().len() && self.entries()[k].vm_id() == id;
                assert(k == i);
                let k0 = choose|k: int| 0 <= k < before.len() && before[k].vm_id() == id;
                assert(k0 == i);
            }
        }
    }

    /// Remove and return the VM registered under `id`.
    pub fn remove(&mut self, id: u128) -> (r: Option<VirtualMachine>)
        requires
            old(self).wf(),
        ensures
            final(self).wf(),
            !old(self).contains(id) ==> r is None && final(self).entries() == old(self).entries(),
            old(self).contains(id) ==> r == Some(old(self).lookup(id)),
            !final(self).contains(id),
            forall|other: u128| other != id ==> (final(self).contains(other) == old(self).contains(other)
                && (old(self).contains(other) ==> final(self).lookup(other) == old(self).lookup(other))),
    {
        let pos = self.position(id);
        match pos {
            Some(i) => {
                let vm = self.vms.remove(i);
                proof {
                    assert forall|other: u128| other != id implies (self.contains(other) == old(self).contains(other)
                        && (old(self).contains(other) ==> self.lookup(other) == old(self).lookup(other))) by {
                        if old(self).contains(other) {
                            let k = choose|k: int| 0 <= k < old(self).entries().len() && old(self).entries()[k].vm_id() == other;
                            if k < i {
                                assert(self.entries()[k].vm_id() == other);
                            } else {
                                assert(self.entries()[k - 1].vm_id() == other);
                            }
                        }
                        if self.contains(other) {
                            let k = choose|k: int| 0 <= k < self.entries().len() && self.entries()[k].vm_id() == other;
                            if k < i {
                                assert(old(self).entries()[k].vm_id() == other);
                            } else {
                                assert(old(self).entries()[k + 1].vm_id() == other);
                            }
                        }
                    }
                    let k = choose|k: int| 0 <= k < old(self).entries().len() && old(self).entries()[k].vm_id() == id;
                    assert(k == i);
                    if self.contains(id) {
                        let j = choose|j: int| 0 <= j < self.entries().len() && self.entries()[j].vm_id() == id;
                        if j < i {
                            assert(old(self).entries()[j].vm_id() == id);
                        } else {
                            assert(old(self).entries()[j + 1].vm_id() == id);
                        }
                    }
                }
                Some(vm)
            },
            None => None,
        }
    }

    /// All registered ids, each once.
    pub fn ids(&self) -> (r: Vec<u128>)
        requires
            self.wf(),
        ensures
            r@.len() == self.entries().len(),
            forall|k: int| 0 <= k < r@.len() ==> r@[k] == self.entries()[k].vm_id(),
            r@.no_duplicates(),
            r@.to_set() == self.id_set(),
    {
        let mut r: Vec<u128> = Vec::new();
        let mut i: usize = 0;
        while i < self.vms.len()
            invariant
                i <= self.vms@.len(),
                r@.len() == i,
                forall|k: int| 0 <= k < i ==> r@[k] == self.vms@[k].vm_id(),
            decreases self.vms@.len() - i,
        {
            r.push(self.vms[i].id());
            i = i + 1;
        }
        proof {
            assert forall|a: int, b: int| 0 <= a < r@.len() && 0 <= b < r@.len() && a != b implies r@[a] != r@[b] by {
            }
            assert forall|id: u128| r@.to_set().contains(id) == self.id_set().contains(id) by {
                if self.contains(id) {
                    let k = choose|k: int| 0 <= k < self.entries().len() && self.entries()[k].vm_id() == id;
                    assert(r@[k] == id);
                }
                if r@.contains(id) {
                    let k = choose|k: int| 0 <= k < r@.len() && r@[k] == id;
                    assert(self.entries()[k].vm_id() == id);
                }
            }
            assert(r@.to_set() =~= self.id_set());
        }
        r
    }

    /// The number of registered VMs.
    pub fn len(&self) -> (n: usize)
        ensures
            n == self.entries().len(),
    {
        self.vms.len()
    }

    /// Whether no VM is registered.
    pub fn is_empty(&self) -> (b: bool)
        ensures
            b == (self.entries().len() == 0),
    {
        self.vms.len() == 0
    }
}

/// The image path of the first disk whose `read_only` flag is `read_only`.
pub open spec fn first_disk_path(disks: Seq<DiskConfig>, read_only: bool) -> Option<Seq<char>>
    decreases disks.len(),
{
    if disks.len() == 0 {
        None
    } else if disks[0].read_only == read_only {
        Some(disks[0].image_path@)
    } else {
        first_disk_path(disks.drop_first(), read_only)
    }
}

fn find_disk_path(disks: &Vec<DiskConfig>, read_only: bool) -> (r: Option<String>)
    ensures
        r matches Some(p) ==> first_disk_path(disks@, read_only) == Some(p@),
        r is None ==> first_disk_path(disks@, read_only) is None,
{
    let mut i: usize = 0;
    assert(disks@.subrange(0, disks@.len() as int) =~= disks@);
    while i < disks.len()
        invariant
            i <= disks@.len(),
            first_disk_path(disks@, read_only) == first_disk_path(disks@.subrange(i as int, disks@.len() as int), read_only),
        decreases disks@.len() - i,
    {
        assert(disks@.subrange(i as int, disks@.len() as int).drop_first() =~= disks@.subrange(i + 1, disks@.len() as int));
        if disks[i].read_only == read_only {
            return Some(disks[i].image_path.clone());
        }
        i = i + 1;
    }
    None
}

/// `r` holds the path `p`, if any.
pub open spec fn path_matches(r: Option<String>, p: Option<Seq<char>>) -> bool {
    match r {
        Some(s) => p == Some(s@),
        None => p is None,
    }
}

/// The hypervisor request for the VM `id` with configuration `cfg`: the
/// first writable disk is the hard disk, the first read-only disk the ISO.
pub open spec fn is_request_for(req: CreateVmRequest, id: u128, cfg: VmConfig) -> bool {
    &&& req.id == Some(id)
    &&& req.name@ == cfg.name@
    &&& req.vcpus == cfg.cpu.vcpus
    &&& req.memory_mib == cfg.memory.size_mib
    &&& req.firmware == (if cfg.firmware == FirmwareType::Uefi { HypFirmware::Uefi } else { HypFirmware::Bios })
    &&& req.secure_boot == cfg.secure_boot
    &&& req.vtpm == cfg.vtpm
    &&& path_matches(req.disk_path, first_disk_path(cfg.disks@, false))
    &&& path_matches(req.iso_path, first_disk_path(cfg.disks@, true))
}

/// Build the hypervisor request for VM `id` from its configuration.
pub fn hypervisor_request(id: u128, cfg: &VmConfig) -> (req: CreateVmRequest)
    ensures
        is_request_for(req, id, *cfg),
{
    CreateVmRequest {
        id: Some(id),
        name: cfg.name.clone(),
        vcpus: cfg.cpu.vcpus,
        memory_mib: cfg.memory.size_mib,
        firmware: match cfg.firmware {
            FirmwareType::Uefi => HypFirmware::Uefi,
            FirmwareType::Bios => HypFirmware::Bios,
        },
        secure_boot: cfg.secure_boot,
        vtpm: cfg.vtpm,
        disk_path: find_disk_path(&cfg.disks, false),
        iso_path: find_disk_path(&cfg.disks, true),
    }
}

/// `dashmap::DashMap`, the concurrent map the engine keeps hypervisor
/// handles in.
#[verifier::external_type_specification]
#[verifier::external_body]
#[verifier::reject_recursive_types(K)]
#[verifier::reject_recursive_types(V)]
#[verifier::reject_recursive_types(S)]
pub struct ExDashMap<K, V, S>(dashmap::DashMap<K, V, S>);

/// The entries of a map of hypervisor handles, by VM id.
pub uninterp spec fn handle_table(m: DashMap<u128, VmHandle>) -> Map<u128, VmHandle>;

/// The handle `table` holds for `id`, if any.
pub open spec fn handle_in(table: Map<u128, VmHandle>, id: u128) -> Option<VmHandle> {
    if table.contains_key(id) {
        Some(table[id])
    } else {
        None
    }
}

/// The empty handle table.
pub open spec fn no_handles() -> Map<u128, VmHandle> {
    Map::empty()
}

/// Calls `DashMap::new`: an empty map.
#[verifier::external_body]
fn handles_new() -> (r: DashMap<u128, VmHandle>)
    ensures
        handle_table(r) == no_handles(),
{
    DashMap::new()
}

/// Calls `DashMap::get` and copies the handle found: the entry for `id`.
#[verifier::external_body]
fn handles_get(m: &DashMap<u128, VmHandle>, id: u128) -> (r: Option<VmHandle>)
    ensures
        r == handle_in(handle_table(*m), id),
{
    m.get(&id).map(|e| e.value().duplicate())
}

/// Calls `DashMap::insert`: the entry for `id` becomes `handle`, replacing
/// any previous one; the other entries stay.
#[verifier::external_body]
fn handles_insert(m: &mut DashMap<u128, VmHandle>, id: u128, handle: VmHandle)
    ensures
        handle_table(*final(m)) == handle_table(*old(m)).insert(id, handle),
{
    m.insert(id, handle);
}

/// Calls `DashMap::remove`: the entry for `id`, if any, is gone; the other
/// entries stay.
#[verifier::external_body]
fn handles_remove(m: &mut DashMap<u128, VmHandle>, id: u128)
    ensures
        handle_table(*final(m)) == handle_table(*old(m)).remove(id),
{
    m.remove(&id);
}

/// What the host does to start a VM at the hypervisor.
pub enum StartPlan {
    /// Start this existing hypervisor VM; on failure call `rollback_start`.
    UseHandle(VmHandle),
    /// No hypervisor VM exists yet: create one from this request, start it,
    /// then call `finish_recreated_start`.
    Recreate(CreateVmRequest),
}

/// The engine's own state: the VM registry and the hypervisor handle of each
/// VM. The hypervisor backend itself lives with the host, which performs the
/// calls each step hands back.
pub struct Engine {
    registry: VmRegistry,
    handles: DashMap<u128, VmHandle>,
}

/// What a pause, resume, stop or reset `a` of VM `id` does to the engine
/// (`before` to `after`) and returns: an unknown id is refused with
/// `VmNotFound`; an action the VM's state does not allow is refused and
/// changes nothing; otherwise the VM takes its next state, nothing else of
/// it changes, and its stored hypervisor handle (if any) is returned. The
/// other VMs and all handles are left alone.
pub open spec fn controlled(
    before: Engine,
    after: Engine,
    id: u128,
    a: LifecycleAction,
    r: Result<Option<VmHandle>, EngineError>,
) -> bool {
    &&& !before.reg().contains(id) ==> (r matches Err(EngineError::VmNotFound(x)) && x == id)
    &&& before.reg().contains(id) ==> {
        let vm = before.reg().lookup(id);
        let now = after.reg().lookup(id);
        match next_state(vm.vm_state(), a) {
            Some(s) => r == Ok::<Option<VmHandle>, EngineError>(before.handle_of(id)) && now.vm_state() == s
                && now.same_but_state(&vm),
            None => (r matches Err(e) && is_refusal(e, a, vm.vm_state())) && now == vm,
        }
    }
    &&& forall|other: u128| #[trigger] after.reg().contains(other) == before.reg().contains(other)
    &&& forall|other: u128| other != id && before.reg().contains(other) ==> after.reg().lookup(other) == before.reg().lookup(other)
    &&& forall|other: u128| after.handle_of(other) == before.handle_of(other)
}

impl Engine {
    pub closed spec fn reg(&self) -> VmRegistry {
        self.registry
    }

    /// The hypervisor handle of VM `id`, if one is stored.
    pub closed spec fn handle_of(&self, id: u128) -> Option<VmHandle> {
        handle_in(handle_table(self.handles), id)
    }

    pub closed spec fn wf(&self) -> bool {
        self.registry.wf()
    }

    /// An engine with no VMs.
    pub fn new() -> (e: Self)
        ensures
            e.wf(),
            e.reg().entries().len() == 0,
            forall|id: u128| e.handle_of(id) is None,
    {
        Engine { registry: VmRegistry::new(), handles: handles_new() }
    }

    /// The VM registry.
    pub fn registry(&self) -> (r: &VmRegistry)
        ensures
            *r == self.reg(),
            self.wf() ==> r.wf(),
    {
        &self.registry
    }

    /// Replace the configuration of VM `id` (see `VmRegistry::set_config`).
    pub fn set_vm_config(&mut self, id: u128, config: VmConfig)
        requires
            old(self).wf(),
        ensures
            final(self).wf(),
            forall|other: u128| #[trigger] final(self).reg().contains(other) == old(self).reg().contains(other),
            forall|other: u128| other != id && old(self).reg().contains(other) ==> final(self).reg().lookup(other) == old(self).reg().lookup(other),
            old(self).reg().contains(id) ==> {
                let before = old(self).reg().lookup(id);
                let after = final(self).reg().lookup(id);
                &&& after.vm_config() == config
                &&& after.vm_id() == id
                &&& after.vm_state() == before.vm_state()
                &&& after.vm_created_at() == before.vm_created_at()
                &&& after.vm_stats() == before.vm_stats()
            },
            forall|other: u128| final(self).handle_of(other) == old(self).handle_of(other),
    {
        self.registry.set_config(id, config);
    }

    /// The stored hypervisor handle of `id`, copied.
    pub fn handle(&self, id: u128) -> (r: Option<VmHandle>)
        requires
            self.wf(),
        ensures
            r == self.handle_of(id),
    {
        handles_get(&self.handles, id)
    }

    fn set_handle(&mut self, id: u128, handle: VmHandle)
        requires
            old(self).wf(),
        ensures
            final(self).wf(),
            final(self).reg() == old(self).reg(),
            final(self).handle_of(id) == Some(handle),
            forall|other: u128| other != id ==> final(self).handle_of(other) == old(self).handle_of(other),
    {
        handles_insert(&mut self.handles, id, handle);
    }

    fn drop_handle(&mut self, id: u128)
        requires
            old(self).wf(),
        ensures
            final(self).wf(),
            final(self).reg() == old(self).reg(),
            final(self).handle_of(id) is None,
            forall|other: u128| other != id ==> final(self).handle_of(other) == old(self).handle_of(other),
    {
        handles_remove(&mut self.handles, id);
    }

    /// First step of VM creation: validate `config`, make the stopped VM and
    /// the hypervisor request for it. The host creates the hypervisor VM and
    /// hands the handle to `register_vm`.
    pub fn prepare_create_vm(config: VmConfig) -> (r: Result<(VirtualMachine, CreateVmRequest), EngineError>)
        ensures
            crate::engine::vm::config_error(config) is None ==> (r matches Ok((vm, req))
                && vm.vm_config() == config && vm.vm_state() == VmState::Stopped
                && vm.vm_created_at() == vm.vm_updated_at()
                && is_request_for(req, vm.vm_id(), config)),
            crate::engine::vm::config_error(config) is Some ==> (r matches Err(EngineError::Config(m))
                && m@ == crate::engine::vm::config_error(config).unwrap()),
    {
        let vm = VirtualMachine::new(config)?;
        let req = hypervisor_request(vm.id(), vm.config());
        Ok((vm, req))
    }

    /// Last step of VM creation: register `vm` with its hypervisor handle.
    pub fn register_vm(&mut self, vm: VirtualMachine, handle: VmHandle) -> (id: u128)
        requires
            old(self).wf(),
        ensures
            final(self).wf(),
            id == vm.vm_id(),
            final(self).reg().contains(id) && final(self).reg().lookup(id) == vm,
            final(self).handle_of(id) == Some(handle),
            forall|other: u128| other != id ==> final(self).reg().contains(other) == old(self).reg().contains(other)
                && final(self).handle_of(other) == old(self).handle_of(other),
    {
        let id = self.registry.insert(vm);
        self.set_handle(id, handle);
        id
    }

    /// Start VM `id`: it must exist and be Stopped or Crashed; it is marked
    /// Running and the host is told how to start it at the hypervisor.
    pub fn start_vm(&mut self, id: u128) -> (r: Result<StartPlan, EngineError>)
        requires
            old(self).wf(),
        ensures
            final(self).wf(),
            !old(self).reg().contains(id) ==> (r matches Err(EngineError::VmNotFound(x)) && x == id),
            old(self).reg().contains(id) ==> {
                let vm = old(self).reg().lookup(id);
                let after = final(self).reg().lookup(id);
                match next_state(vm.vm_state(), LifecycleAction::Start) {
                    Some(s) => after.vm_state() == s && after.same_but_state(&vm) && match r {
                        Ok(StartPlan::UseHandle(h)) => old(self).handle_of(id) == Some(h),
                        Ok(StartPlan::Recreate(req)) => old(self).handle_of(id) is None && is_request_for(req, id, vm.vm_config()),
                        Err(_) => false,
                    },
                    None => (r matches Err(e) && is_refusal(e, LifecycleAction::Start, vm.vm_state())) && after == vm,
                }
            },
            forall|other: u128| #[trigger] final(self).reg().contains(other) == old(self).reg().contains(other),
            forall|other: u128| other != id && old(self).reg().contains(other) ==> final(self).reg().lookup(other) == old(self).reg().lookup(other),
            forall|other: u128| final(self).handle_of(other) == old(self).handle_of(other),
    {
        let ghost vm0 = self.registry.lookup(id);
        self.registry.apply(id, LifecycleAction::Start)?;
        match self.handle(id) {
            Some(h) => Ok(StartPlan::UseHandle(h)),
            None => {
                let vm = self.registry.get(id);
                match vm {
                    Some(v) => {
                        assert(v.vm_config() == vm0.vm_config());
                        Ok(StartPlan::Recreate(hypervisor_request(id, v.config())))
                    },
                    None => Err(EngineError::VmNotFound(id)),
                }
            },
        }
    }

    /// The hypervisor failed to start VM `id`: put it back to Stopped.
    pub fn rollback_start(&mut self, id: u128)
        requires
            old(self).wf(),
        ensures
            final(self).wf(),
            old(self).reg().contains(id) ==> final(self).reg().lookup(id).vm_state() == VmState::Stopped
                && final(self).reg().lookup(id).same_but_state(&old(self).reg().lookup(id)),
            forall|other: u128| #[trigger] final(self).reg().contains(other) == old(self).reg().contains(other),
            forall|other: u128| other != id && old(self).reg().contains(other) ==> final(self).reg().lookup(other) == old(self).reg().lookup(other),
            forall|other: u128| final(self).handle_of(other) == old(self).handle_of(other),
    {
        self.registry.force_state(id, false);
    }

    /// A hypervisor VM was re-created and started for VM `id`: keep its
    /// handle and mark the VM Running.
    pub fn finish_recreated_start(&mut self, id: u128, handle: VmHandle) -> (r: Result<(), EngineError>)
        requires
            old(self).wf(),
        ensures
            final(self).wf(),
            final(self).handle_of(id) == Some(handle),
            !old(self).reg().contains(id) ==> (r matches Err(EngineError::VmNotFound(x)) && x == id),
            old(self).reg().contains(id) ==> r is Ok && final(self).reg().lookup(id).vm_state() == VmState::Running
                && final(self).reg().lookup(id).same_but_state(&old(self).reg().lookup(id)),
            forall|other: u128| #[trigger] final(self).reg().contains(other) == old(self).reg().contains(other),
            forall|other: u128| other != id && old(self).reg().contains(other) ==> final(self).reg().lookup(other) == old(self).reg().lookup(other),
    {
        let exists = self.registry.get(id).is_some();
        if !exists {
            self.set_handle(id, handle);
            return Err(EngineError::VmNotFound(id));
        }
        self.registry.force_state(id, true);
        self.set_handle(id, handle);
        Ok(())
    }

    /// Apply a pause, resume, stop or reset to VM `id` and return its
    /// hypervisor handle (if any) for the host to forward the request.
    pub fn control_vm(&mut self, id: u128, a: LifecycleAction) -> (r: Result<Option<VmHandle>, EngineError>)
        requires
            old(self).wf(),
            a == LifecycleAction::Pause || a == LifecycleAction::Resume || a == LifecycleAction::Stop || a == LifecycleAction::Reset,
        ensures
            final(self).wf(),
            controlled(*old(self), *final(self), id, a, r),
    {
        self.registry.apply(id, a)?;
        Ok(self.handle(id))
    }

    /// Pause VM `id` (it must be Running); its hypervisor handle, if any, is
    /// returned for the host to pause the hypervisor VM too.
    pub fn pause_vm(&mut self, id: u128) -> (r: Result<Option<VmHandle>, EngineError>)
        requires
            old(self).wf(),
        ensures
            final(self).wf(),
            controlled(*old(self), *final(self), id, LifecycleAction::Pause, r),
    {
        self.control_vm(id, LifecycleAction::Pause)
    }

    /// Resume VM `id` (it must be Paused); its hypervisor handle, if any, is
    /// returned for the host to resume the hypervisor VM too.
    pub fn resume_vm(&mut self, id: u128) -> (r: Result<Option<VmHandle>, EngineError>)
        requires
            old(self).wf(),
        ensures
            final(self).wf(),
            controlled(*old(self), *final(self), id, LifecycleAction::Resume, r),
    {
        self.control_vm(id, LifecycleAction::Resume)
    }

    /// Stop VM `id` (it must be Running or Paused); its hypervisor handle,
    /// if any, is returned for the host to stop the hypervisor VM too.
    pub fn stop_vm(&mut self, id: u128) -> (r: Result<Option<VmHandle>, EngineError>)
        requires
            old(self).wf(),
        ensures
            final(self).wf(),
            controlled(*old(self), *final(self), id, LifecycleAction::Stop, r),
    {
        self.control_vm(id, LifecycleAction::Stop)
    }

    /// Reset VM `id` (it must be Running, and stays Running); its
    /// hypervisor handle, if any, is returned for the host to stop and start
    /// the hypervisor VM.
    pub fn reset_vm(&mut self, id: u128) -> (r: Result<Option<VmHandle>, EngineError>)
        requires
            old(self).wf(),
        ensures
            final(self).wf(),
            controlled(*old(self), *final(self), id, LifecycleAction::Reset, r),
    {
        self.control_vm(id, LifecycleAction::Reset)
    }

    /// Destroy VM `id`: it ends Stopped and leaves the registry; its
    /// hypervisor handle (if any) is returned for the host to destroy.
    pub fn destroy_vm(&mut self, id: u128) -> (r: Result<Option<VmHandle>, EngineError>)
        requires
            old(self).wf(),
        ensures
            final(self).wf(),
            !old(self).reg().contains(id) ==> (r matches Err(EngineError::VmNotFound(x)) && x == id)
                && final(self).reg().entries() == old(self).reg().entries(),
            old(self).reg().contains(id) ==> r == Ok::<Option<VmHandle>, EngineError>(old(self).handle_of(id))
                && !final(self).reg().contains(id) && final(self).handle_of(id) is None,
            forall|other: u128| other != id ==> final(self).reg().contains(other) == old(self).reg().contains(other)
                && (old(self).reg().contains(other) ==> final(self).reg().lookup(other) == old(self).reg().lookup(other))
                && final(self).handle_of(other) == old(self).handle_of(other),
    {
        self.registry.apply(id, LifecycleAction::Destroy)?;
        let h = self.handle(id);
        let _ = self.registry.remove(id);
        self.drop_handle(id);
        Ok(h)
    }
}

} // verus!

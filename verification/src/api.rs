//! The request, response and error values the application layer hands to
//! its front end, and the mapping of each subsystem's error onto them.
use vstd::prelude::*;
use crate::engine::config::VmConfig;
use crate::engine::error::{engine_error_text, joined3, EngineError};
use crate::engine::registry::Engine;
use crate::engine::vm::{VirtualMachine, VmState};
use crate::network::{network_error_text, NetworkError};
use crate::snapshot::{snapshot_error_text, SnapshotError};
use crate::storage::{storage_error_text, StorageError};
use crate::util::ids::{uuid_text, uuid_to_string};

verus! {

/// Request to create a new virtual machine.
pub struct CreateVmRequest {
    pub config: VmConfig,
}

/// Response after creating a VM.
pub struct CreateVmResponse {
    pub vm_id: u128,
}

/// A summary of one VM, as listed to the user.
pub struct VmSummary {
    pub id: u128,
    pub name: String,
    pub state: VmState,
    pub cpu_vcpus: u32,
    pub memory_mib: u64,
    pub tags: Vec<String>,
    pub group: Option<String>,
    /// Creation time, milliseconds since the Unix epoch.
    pub created_at: i64,
    /// Last update time, milliseconds since the Unix epoch.
    pub updated_at: i64,
}

/// A copy of `tags`.
fn clone_tags(tags: &Vec<String>) -> (r: Vec<String>)
    ensures
        r@ == tags@,
{
    let mut r: Vec<String> = Vec::new();
    let mut i: usize = 0;
    while i < tags.len()
        invariant
            i <= tags.len(),
            r@ == tags@.subrange(0, i as int),
        decreases tags.len() - i,
    {
        r.push(tags[i].clone());
        i = i + 1;
    }
    assert(r@ =~= tags@);
    r
}

impl VmSummary {
    /// The summary of `vm`.
    pub fn of(vm: &VirtualMachine) -> (r: Self)
        ensures
            r.id == vm.vm_id(),
            r.name@ == vm.vm_config().name@,
            r.state == vm.vm_state(),
            r.cpu_vcpus == vm.vm_config().cpu.vcpus,
            r.memory_mib == vm.vm_config().memory.size_mib,
            r.tags@ == vm.vm_config().tags@,
            r.group == vm.vm_config().group,
            r.created_at == vm.vm_created_at(),
            r.updated_at == vm.vm_updated_at(),
    {
        let cfg = vm.config();
        VmSummary {
            id: vm.id(),
            name: cfg.name.clone(),
            state: *vm.state(),
            cpu_vcpus: cfg.cpu.vcpus,
            memory_mib: cfg.memory.size_mib,
            tags: clone_tags(&cfg.tags),
            group: match &cfg.group {
                Some(g) => Some(g.clone()),
                None => None,
            },
            created_at: vm.created_at(),
            updated_at: vm.updated_at(),
        }
    }
}

/// One entry of the application's log.
#[derive(Debug)]
pub struct LogEntry {
    /// When it was logged, as `YYYY-MM-DD HH:MM:SS` (UTC).
    pub timestamp: String,
    /// Severity, upper case.
    pub level: String,
    /// The subsystem it concerns.
    pub target: String,
    /// The message.
    pub message: String,
}

/// `a` sorts no later than `b`: code-point lexicographic order, which is the
/// order of `String`'s `Ord` (UTF-8 bytes compared in turn).
pub open spec fn name_le(a: Seq<char>, b: Seq<char>) -> bool
    decreases a.len(),
{
    if a.len() == 0 {
        true
    } else if b.len() == 0 {
        false
    } else if (a[0] as u32) != (b[0] as u32) {
        (a[0] as u32) < (b[0] as u32)
    } else {
        name_le(a.drop_first(), b.drop_first())
    }
}

/// Any two names are ordered one way or the other.
proof fn lemma_name_le_total(a: Seq<char>, b: Seq<char>)
    ensures
        name_le(a, b) || name_le(b, a),
    decreases a.len(),
{
    if a.len() > 0 && b.len() > 0 && (a[0] as u32) == (b[0] as u32) {
        lemma_name_le_total(a.drop_first(), b.drop_first());
    }
}

/// The order is transitive.
proof fn lemma_name_le_trans(a: Seq<char>, b: Seq<char>, c: Seq<char>)
    requires
        name_le(a, b),
        name_le(b, c),
    ensures
        name_le(a, c),
    decreases a.len(),
{
    if a.len() > 0 && b.len() > 0 && c.len() > 0 && (a[0] as u32) == (b[0] as u32) && (b[0] as u32) == (c[0] as u32) {
        lemma_name_le_trans(a.drop_first(), b.drop_first(), c.drop_first());
    }
}

/// Whether `a` sorts no later than `b`.
fn text_le(a: &str, b: &str) -> (r: bool)
    ensures
        r == name_le(a@, b@),
{
    let n = a.unicode_len();
    let m = b.unicode_len();
    let mut i: usize = 0;
    proof {
        assert(a@.subrange(0, n as int) =~= a@);
        assert(b@.subrange(0, m as int) =~= b@);
    }
    while i < n && i < m && (a.get_char(i) as u32) == (b.get_char(i) as u32)
        invariant
            i <= n,
            i <= m,
            n == a@.len(),
            m == b@.len(),
            name_le(a@, b@) == name_le(a@.subrange(i as int, n as int), b@.subrange(i as int, m as int)),
        decreases n - i,
    {
        proof {
            let sa = a@.subrange(i as int, n as int);
            let sb = b@.subrange(i as int, m as int);
            assert(sa.drop_first() =~= a@.subrange(i + 1, n as int));
            assert(sb.drop_first() =~= b@.subrange(i + 1, m as int));
        }
        i = i + 1;
    }
    if i == n {
        proof {
            assert(a@.subrange(i as int, n as int).len() == 0);
        }
        true
    } else if i == m {
        false
    } else {
        (a.get_char(i) as u32) < (b.get_char(i) as u32)
    }
}

/// The summaries sorted by name (a stable insertion sort; summaries with
/// equal names keep their order).
pub fn sort_by_name(v: Vec<VmSummary>) -> (r: Vec<VmSummary>)
    ensures
        r@.to_multiset() == v@.to_multiset(),
        forall|i: int, j: int| 0 <= i < j < r@.len() ==> name_le(#[trigger] r@[i].name@, #[trigger] r@[j].name@),
{
    broadcast use vstd::seq_lib::group_to_multiset_ensures, vstd::multiset::group_multiset_axioms;
    let mut rest = v;
    let mut r: Vec<VmSummary> = Vec::new();
    proof {
        assert(r@.to_multiset() =~= vstd::multiset::Multiset::<VmSummary>::empty());
    }
    while rest.len() > 0
        invariant
            r@.to_multiset().add(rest@.to_multiset()) == v@.to_multiset(),
            forall|i: int, j: int| 0 <= i < j < r@.len() ==> name_le(#[trigger] r@[i].name@, #[trigger] r@[j].name@),
        decreases rest.len(),
    {
        let ghost rest0 = rest@;
        let x = rest.remove(0);
        let mut k: usize = 0;
        while k < r.len() && text_le(r[k].name.as_str(), x.name.as_str())
            invariant
                k <= r.len(),
                forall|m: int| 0 <= m < k ==> name_le(#[trigger] r@[m].name@, x.name@),
            decreases r.len() - k,
        {
            k = k + 1;
        }
        let ghost r0 = r@;
        let ghost xn = x.name@;
        proof {
            assert forall|m: int| k <= m < r0.len() implies name_le(xn, #[trigger] r0[m].name@) by {
                assert(!name_le(r0[k as int].name@, xn));
                if m > k {
                    assert(name_le(r0[k as int].name@, r0[m].name@));
                    if name_le(r0[m].name@, xn) {
                        lemma_name_le_trans(r0[k as int].name@, r0[m].name@, xn);
                    }
                }
                lemma_name_le_total(r0[m].name@, xn);
            }
        }
        r.insert(k, x);
        proof {
            assert(r@ == r0.insert(k as int, r@[k as int]));
            assert forall|i: int, j: int| 0 <= i < j < r@.len() implies name_le(#[trigger] r@[i].name@, #[trigger] r@[j].name@) by {
                if j < k {
                    assert(r@[i] == r0[i] && r@[j] == r0[j]);
                } else if j == k {
                    assert(r@[i] == r0[i]);
                } else if i == k {
                    assert(r@[j] == r0[j - 1]);
                } else if i < k {
                    assert(r@[i] == r0[i] && r@[j] == r0[j - 1]);
                    assert(name_le(r0[i].name@, xn));
                    assert(name_le(xn, r0[j - 1].name@));
                    lemma_name_le_trans(r0[i].name@, xn, r0[j - 1].name@);
                } else {
                    assert(r@[i] == r0[i - 1] && r@[j] == r0[j - 1]);
                }
            }
            assert(rest0.remove(0) == rest@);
            assert(r@[k as int] == rest0[0]);
            assert(rest0.contains(rest0[0]));
            vstd::seq_lib::to_multiset_contains(rest0, rest0[0]);
            vstd::seq_lib::to_multiset_remove(rest0, 0);
            assert(rest0.to_multiset().count(rest0[0]) > 0);
            assert(rest@.to_multiset() == rest0.to_multiset().remove(rest0[0]));
            vstd::seq_lib::to_multiset_insert(r0, k as int, rest0[0]);
            assert(r@.to_multiset() == r0.to_multiset().insert(rest0[0]));
            assert(r@.to_multiset().add(rest@.to_multiset()) =~= r0.to_multiset().add(rest0.to_multiset()));
        }
    }
    proof {
        assert(rest@.to_multiset() =~= vstd::multiset::Multiset::<VmSummary>::empty());
        assert(r@.to_multiset().add(rest@.to_multiset()) =~= r@.to_multiset());
    }
    r
}

/// `s` is the summary of `vm`.
pub open spec fn summary_of(s: VmSummary, vm: VirtualMachine) -> bool {
    &&& s.id == vm.vm_id()
    &&& s.name@ == vm.vm_config().name@
    &&& s.state == vm.vm_state()
    &&& s.cpu_vcpus == vm.vm_config().cpu.vcpus
    &&& s.memory_mib == vm.vm_config().memory.size_mib
    &&& s.tags@ == vm.vm_config().tags@
    &&& s.group == vm.vm_config().group
    &&& s.created_at == vm.vm_created_at()
    &&& s.updated_at == vm.vm_updated_at()
}

/// `r` holds one summary per VM of `vms`: as many summaries as VMs, each
/// the summary of one of them, and each VM summarized.
pub open spec fn summarizes_all(r: Seq<VmSummary>, vms: Seq<VirtualMachine>) -> bool {
    &&& r.len() == vms.len()
    &&& forall|i: int| 0 <= i < r.len() ==> summarizes_one_of(#[trigger] r[i], vms)
    &&& forall|k: int| 0 <= k < vms.len() ==> summarized_in(r, #[trigger] vms[k])
}

/// `s` is the summary of some VM of `vms`.
pub open spec fn summarizes_one_of(s: VmSummary, vms: Seq<VirtualMachine>) -> bool {
    exists|k: int| 0 <= k < vms.len() && summary_of(s, #[trigger] vms[k])
}

/// Some summary of `r` is that of `vm`.
pub open spec fn summarized_in(r: Seq<VmSummary>, vm: VirtualMachine) -> bool {
    exists|i: int| 0 <= i < r.len() && summary_of(#[trigger] r[i], vm)
}

/// A reordering of summaries of `vms`, taken in order, summarizes them all.
proof fn lemma_summaries_permuted(r: Seq<VmSummary>, a: Seq<VmSummary>, vms: Seq<VirtualMachine>)
    requires
        r.to_multiset() == a.to_multiset(),
        a.len() == vms.len(),
        forall|j: int| 0 <= j < a.len() ==> summary_of(#[trigger] a[j], vms[j]),
    ensures
        summarizes_all(r, vms),
{
    broadcast use vstd::seq_lib::group_to_multiset_ensures;
    assert forall|p: int| 0 <= p < r.len() implies summarizes_one_of(#[trigger] r[p], vms) by {
        assert(r.contains(r[p]));
        assert(a.to_multiset().count(r[p]) > 0);
        assert(a.contains(r[p]));
        let j = choose|j: int| 0 <= j < a.len() && a[j] == r[p];
        assert(summary_of(a[j], vms[j]));
    }
    assert forall|k: int| 0 <= k < vms.len() implies summarized_in(r, #[trigger] vms[k]) by {
        assert(summary_of(a[k], vms[k]));
        assert(a.contains(a[k]));
        assert(r.to_multiset().count(a[k]) > 0);
        assert(r.contains(a[k]));
        let p = choose|p: int| 0 <= p < r.len() && r[p] == a[k];
        assert(summary_of(r[p], vms[k]));
    }
    assert(r.len() == a.to_multiset().len());
}

/// The summaries of all VMs of `engine`, sorted by name: one per VM.
pub fn list_vms(engine: &Engine) -> (r: Vec<VmSummary>)
    requires
        engine.wf(),
    ensures
        summarizes_all(r@, engine.reg().entries()),
        forall|i: int, j: int| 0 <= i < j < r@.len() ==> name_le(#[trigger] r@[i].name@, #[trigger] r@[j].name@),
{
    broadcast use vstd::seq_lib::group_to_multiset_ensures;
    let reg = engine.registry();
    let ids = reg.ids();
    let ghost entries = reg.entries();
    let mut all: Vec<VmSummary> = Vec::new();
    let mut i: usize = 0;
    while i < ids.len()
        invariant
            reg.wf(),
            entries == reg.entries(),
            ids@.len() == entries.len(),
            forall|k: int| 0 <= k < ids@.len() ==> ids@[k] == entries[k].vm_id(),
            i <= ids@.len(),
            all@.len() == i,
            forall|j: int| 0 <= j < i ==> summary_of(#[trigger] all@[j], entries[j]),
        decreases ids@.len() - i,
    {
        proof {
            assert(reg.contains(ids@[i as int]));
            let k = choose|k: int| 0 <= k < entries.len() && entries[k].vm_id() == ids@[i as int];
            assert(k == i);
        }
        match reg.get(ids[i]) {
            Some(vm) => all.push(VmSummary::of(vm)),
            None => {},
        }
        i = i + 1;
    }
    let ghost a = all@;
    let r = sort_by_name(all);
    proof {
        lemma_summaries_permuted(r@, a, entries);
        assert(entries == engine.reg().entries());
    }
    r
}

/// The answer for an unknown VM `id`: `VM_NOT_FOUND`, "VM <id> not found".
pub fn vm_not_found(id: u128) -> (e: ApiError)
    ensures
        e.code@ == "VM_NOT_FOUND"@,
        e.message@ == "VM "@ + uuid_text(id) + " not found"@,
{
    let text = uuid_to_string(id);
    let m = joined3("VM ", text.as_str(), " not found");
    ApiError::new("VM_NOT_FOUND", m.as_str())
}

/// The summary of VM `vm_id` of `engine`; `VM_NOT_FOUND` when there is none.
pub fn get_vm(engine: &Engine, vm_id: u128) -> (r: Result<VmSummary, ApiError>)
    requires
        engine.wf(),
    ensures
        !engine.reg().contains(vm_id) ==> (r matches Err(e) && e.code@ == "VM_NOT_FOUND"@
            && e.message@ == "VM "@ + uuid_text(vm_id) + " not found"@),
        engine.reg().contains(vm_id) ==> (r matches Ok(s) && summary_of(s, engine.reg().lookup(vm_id))),
{
    match engine.registry().get(vm_id) {
        Some(vm) => Ok(VmSummary::of(vm)),
        None => Err(vm_not_found(vm_id)),
    }
}

/// Replace the configuration of VM `vm_id`, which must be Stopped:
/// `VM_NOT_FOUND` for an unknown VM, `VM_NOT_STOPPED` (nothing changed)
/// for one in another state. The new configuration is taken as given.
pub fn update_vm_config(engine: &mut Engine, vm_id: u128, config: VmConfig) -> (r: Result<(), ApiError>)
    requires
        old(engine).wf(),
    ensures
        final(engine).wf(),
        !old(engine).reg().contains(vm_id) ==> (r matches Err(e) && e.code@ == "VM_NOT_FOUND"@
            && e.message@ == "VM "@ + uuid_text(vm_id) + " not found"@) && *final(engine) == *old(engine),
        old(engine).reg().contains(vm_id) && old(engine).reg().lookup(vm_id).vm_state() != VmState::Stopped ==> (
            r matches Err(e) && e.code@ == "VM_NOT_STOPPED"@
            && e.message@ == "Configuration can only be changed while the VM is stopped"@) && *final(engine) == *old(engine),
        old(engine).reg().contains(vm_id) && old(engine).reg().lookup(vm_id).vm_state() == VmState::Stopped ==> {
            let before = old(engine).reg().lookup(vm_id);
            let after = final(engine).reg().lookup(vm_id);
            &&& r is Ok
            &&& final(engine).reg().contains(vm_id)
            &&& after.vm_config() == config && after.vm_id() == vm_id && after.vm_state() == VmState::Stopped
            &&& after.vm_created_at() == before.vm_created_at() && after.vm_stats() == before.vm_stats()
        },
        forall|other: u128| #[trigger] final(engine).reg().contains(other) == old(engine).reg().contains(other),
        forall|other: u128| other != vm_id && old(engine).reg().contains(other)
            ==> final(engine).reg().lookup(other) == old(engine).reg().lookup(other),
        forall|other: u128| final(engine).handle_of(other) == old(engine).handle_of(other),
{
    let stopped = match engine.registry().get(vm_id) {
        None => {
            return Err(vm_not_found(vm_id));
        },
        Some(vm) => *vm.state() == VmState::Stopped,
    };
    if !stopped {
        return Err(ApiError::new("VM_NOT_STOPPED", "Configuration can only be changed while the VM is stopped"));
    }
    engine.set_vm_config(vm_id, config);
    Ok(())
}

/// The error every application command answers with: a machine-readable
/// code and the message shown to the user.
#[derive(Debug)]
pub struct ApiError {
    pub code: String,
    pub message: String,
}

impl ApiError {
    /// An error with this code and message.
    pub fn new(code: &str, message: &str) -> (r: Self)
        ensures
            r.code@ == code@,
            r.message@ == message@,
    {
        ApiError { code: String::from_str(code), message: String::from_str(message) }
    }

    /// An engine error, under the code `ENGINE_ERROR`.
    pub fn from_engine(e: EngineError) -> (r: Self)
        ensures
            r.code@ == "ENGINE_ERROR"@,
            r.message@ == engine_error_text(e),
    {
        let m = e.to_string();
        ApiError { code: String::from_str("ENGINE_ERROR"), message: m }
    }

    /// A storage error, under the code `STORAGE_ERROR`.
    pub fn from_storage(e: StorageError) -> (r: Self)
        ensures
            r.code@ == "STORAGE_ERROR"@,
            r.message@ == storage_error_text(e),
    {
        let m = e.to_string();
        ApiError { code: String::from_str("STORAGE_ERROR"), message: m }
    }

    /// A network error, under the code `NETWORK_ERROR`.
    pub fn from_network(e: NetworkError) -> (r: Self)
        ensures
            r.code@ == "NETWORK_ERROR"@,
            r.message@ == network_error_text(e),
    {
        let m = e.to_string();
        ApiError { code: String::from_str("NETWORK_ERROR"), message: m }
    }

    /// A snapshot error, under the code `SNAPSHOT_ERROR`.
    pub fn from_snapshot(e: SnapshotError) -> (r: Self)
        ensures
            r.code@ == "SNAPSHOT_ERROR"@,
            r.message@ == snapshot_error_text(e),
    {
        let m = e.to_string();
        ApiError { code: String::from_str("SNAPSHOT_ERROR"), message: m }
    }
}

} // verus!

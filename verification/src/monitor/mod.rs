//! Host and per-VM metrics with a bounded history (a ring buffer of the
//! latest 300 samples, five minutes at one sample per second).
use vstd::prelude::*;
use std::collections::VecDeque;
use dashmap::DashMap;

verus! {

/// Monitor errors.
#[derive(Debug)]
pub enum MonitorError {
    VmNotMonitored(u128),
    Internal(String),
}

/// One sample of host metrics.
#[derive(Debug)]
pub struct HostMetrics {
    /// IEEE-754 bits of the host CPU usage across all CPUs (0–100 %).
    pub cpu_percent_bits: u64,
    pub memory_total_mib: u64,
    pub memory_used_mib: u64,
    pub swap_total_mib: u64,
    pub swap_used_mib: u64,
    /// IEEE-754 bits of each CPU's usage.
    pub per_cpu_percent_bits: Vec<u64>,
    pub disk_read_bytes: u64,
    pub disk_write_bytes: u64,
    pub net_rx_bytes: u64,
    pub net_tx_bytes: u64,
    /// UNIX time of the sample, in seconds.
    pub timestamp: u64,
}

/// One sample of VM metrics.
#[derive(Debug, Clone, Copy, PartialEq, Eq, Structural)]
pub struct VmMetrics {
    pub vm_id: u128,
    /// IEEE-754 bits of the CPU usage across all vCPUs (0–100 %).
    pub cpu_percent_bits: u64,
    pub memory_used_mib: u64,
    pub disk_read_bytes: u64,
    pub disk_write_bytes: u64,
    pub net_rx_bytes: u64,
    pub net_tx_bytes: u64,
    /// UNIX time of the sample, in seconds.
    pub timestamp: u64,
}

/// A sample that can be copied.
pub trait Sample: Sized {
    /// `self` and `other` hold the same values.
    spec fn same(&self, other: &Self) -> bool;

    /// A copy holding the same values.
    fn duplicate(&self) -> (r: Self)
        ensures
            r.same(self),
    ;
}

impl Sample for VmMetrics {
    open spec fn same(&self, other: &Self) -> bool {
        *self == *other
    }

    fn duplicate(&self) -> (r: Self) {
        *self
    }
}

impl Sample for HostMetrics {
    open spec fn same(&self, other: &Self) -> bool {
        &&& self.cpu_percent_bits == other.cpu_percent_bits
        &&& self.memory_total_mib == other.memory_total_mib
        &&& self.memory_used_mib == other.memory_used_mib
        &&& self.swap_total_mib == other.swap_total_mib
        &&& self.swap_used_mib == other.swap_used_mib
        &&& self.per_cpu_percent_bits@ == other.per_cpu_percent_bits@
        &&& self.disk_read_bytes == other.disk_read_bytes
        &&& self.disk_write_bytes == other.disk_write_bytes
        &&& self.net_rx_bytes == other.net_rx_bytes
        &&& self.net_tx_bytes == other.net_tx_bytes
        &&& self.timestamp == other.timestamp
    }

    fn duplicate(&self) -> (r: Self) {
        let mut per: Vec<u64> = Vec::new();
        let mut i: usize = 0;
        while i < self.per_cpu_percent_bits.len()
            invariant
                i <= self.per_cpu_percent_bits@.len(),
                per@ == self.per_cpu_percent_bits@.subrange(0, i as int),
            decreases self.per_cpu_percent_bits@.len() - i,
        {
            per.push(self.per_cpu_percent_bits[i]);
            i = i + 1;
            assert(per@ =~= self.per_cpu_percent_bits@.subrange(0, i as int));
        }
        assert(per@ =~= self.per_cpu_percent_bits@);
        HostMetrics {
            cpu_percent_bits: self.cpu_percent_bits,
            memory_total_mib: self.memory_total_mib,
            memory_used_mib: self.memory_used_mib,
            swap_total_mib: self.swap_total_mib,
            swap_used_mib: self.swap_used_mib,
            per_cpu_percent_bits: per,
            disk_read_bytes: self.disk_read_bytes,
            disk_write_bytes: self.disk_write_bytes,
            net_rx_bytes: self.net_rx_bytes,
            net_tx_bytes: self.net_tx_bytes,
            timestamp: self.timestamp,
        }
    }
}

/// Samples kept per entity.
pub const RING_BUFFER_SIZE: usize = 300;

/// The latest `RING_BUFFER_SIZE` samples, oldest first.
pub struct History<T> {
    items: VecDeque<T>,
}

/// `h` after recording `x`: the oldest sample goes once the buffer is full.
pub open spec fn recorded<T>(h: Seq<T>, x: T) -> Seq<T> {
    (if h.len() >= RING_BUFFER_SIZE { h.drop_first() } else { h }).push(x)
}

impl<T: Sample> History<T> {
    pub closed spec fn items(&self) -> Seq<T> {
        self.items@
    }

    pub open spec fn wf(&self) -> bool {
        self.items().len() <= RING_BUFFER_SIZE
    }

    /// An empty history.
    pub fn new() -> (h: Self)
        ensures
            h.wf(),
            h.items().len() == 0,
    {
        History { items: VecDeque::new() }
    }

    /// Record a sample, dropping the oldest when the buffer is full.
    pub fn push(&mut self, x: T)
        requires
            old(self).wf(),
        ensures
            final(self).wf(),
            final(self).items() == recorded(old(self).items(), x),
    {
        if self.items.len() >= RING_BUFFER_SIZE {
            let _ = self.items.pop_front();
        }
        self.items.push_back(x);
    }

    /// A copy of the newest sample.
    pub fn latest(&self) -> (r: Option<T>)
        ensures
            self.items().len() == 0 ==> r is None,
            self.items().len() > 0 ==> (r matches Some(x) && x.same(&self.items().last())),
    {
        let n = self.items.len();
        if n == 0 {
            None
        } else {
            Some(self.items[n - 1].duplicate())
        }
    }

    /// Copies of all samples, oldest first.
    pub fn to_vec(&self) -> (r: Vec<T>)
        ensures
            r@.len() == self.items().len(),
            forall|k: int| 0 <= k < r@.len() ==> #[trigger] r@[k].same(&self.items()[k]),
    {
        let mut r: Vec<T> = Vec::new();
        let mut i: usize = 0;
        while i < self.items.len()
            invariant
                i <= self.items@.len(),
                r@.len() == i,
                forall|k: int| 0 <= k < i ==> #[trigger] r@[k].same(&self.items@[k]),
            decreases self.items@.len() - i,
        {
            r.push(self.items[i].duplicate());
            i = i + 1;
        }
        r
    }
}

/// A history never holds more than `RING_BUFFER_SIZE` samples, and
/// recording into a full one keeps it full.
pub proof fn law_history_bounded<T>(h: Seq<T>, x: T)
    requires
        h.len() <= RING_BUFFER_SIZE,
    ensures
        recorded(h, x).len() <= RING_BUFFER_SIZE,
        h.len() == RING_BUFFER_SIZE ==> recorded(h, x).len() == RING_BUFFER_SIZE,
        recorded(h, x).last() == x,
{
}

/// After `n` samples a history starting empty holds `min(n, RING_BUFFER_SIZE)`
/// of them: one more sample adds one until the limit, then keeps the length.
pub proof fn law_history_counts_samples<T>(h: Seq<T>, x: T, n: nat)
    requires
        h.len() == (if n < RING_BUFFER_SIZE { n } else { RING_BUFFER_SIZE as nat }),
    ensures
        recorded(h, x).len() == (if n + 1 < RING_BUFFER_SIZE { n + 1 } else { RING_BUFFER_SIZE as nat }),
{
}

/// The entries of a map of VM histories, by VM id.
pub uninterp spec fn history_table(m: DashMap<u128, History<VmMetrics>>) -> Map<u128, History<VmMetrics>>;

/// The empty history table.
pub open spec fn no_histories() -> Map<u128, History<VmMetrics>> {
    Map::empty()
}

/// Calls `DashMap::new`: an empty map.
#[verifier::external_body]
fn histories_new() -> (r: DashMap<u128, History<VmMetrics>>)
    ensures
        history_table(r) == no_histories(),
{
    DashMap::new()
}

/// Calls `DashMap::contains_key`: whether `id` has an entry.
#[verifier::external_body]
fn histories_contain(m: &DashMap<u128, History<VmMetrics>>, id: u128) -> (r: bool)
    ensures
        r == history_table(*m).contains_key(id),
{
    m.contains_key(&id)
}

/// Calls `DashMap::insert`: the entry for `id` becomes `h`; the others stay.
#[verifier::external_body]
fn histories_insert(m: &mut DashMap<u128, History<VmMetrics>>, id: u128, h: History<VmMetrics>)
    ensures
        history_table(*final(m)) == history_table(*old(m)).insert(id, h),
{
    m.insert(id, h);
}

/// Calls `DashMap::remove` and hands out the removed history: the entry for
/// `id`, if any, leaves the map; the others stay.
#[verifier::external_body]
fn histories_take(m: &mut DashMap<u128, History<VmMetrics>>, id: u128) -> (r: Option<History<VmMetrics>>)
    ensures
        r == (if history_table(*old(m)).contains_key(id) { Some(history_table(*old(m))[id]) } else { None }),
        history_table(*final(m)) == history_table(*old(m)).remove(id),
{
    m.remove(&id).map(|(_, h)| h)
}

/// Calls `DashMap::get` and `History::latest` on the entry for `id`: none
/// without an entry; else what `latest` gives for that history.
#[verifier::external_body]
fn histories_latest(m: &DashMap<u128, History<VmMetrics>>, id: u128) -> (r: Option<VmMetrics>)
    ensures
        !history_table(*m).contains_key(id) ==> r is None,
        history_table(*m).contains_key(id) && history_table(*m)[id].items().len() == 0 ==> r is None,
        history_table(*m).contains_key(id) && history_table(*m)[id].items().len() > 0 ==> r == Some(
            history_table(*m)[id].items().last(),
        ),
{
    m.get(&id).and_then(|h| h.value().latest())
}

/// Calls `DashMap::get` and `History::to_vec` on the entry for `id`: none
/// without an entry; else the samples of that history, oldest first.
#[verifier::external_body]
fn histories_items(m: &DashMap<u128, History<VmMetrics>>, id: u128) -> (r: Option<Vec<VmMetrics>>)
    ensures
        !history_table(*m).contains_key(id) ==> r is None,
        history_table(*m).contains_key(id) ==> r is Some && r.unwrap()@ == history_table(*m)[id].items(),
{
    m.get(&id).map(|h| h.value().to_vec())
}

/// The metrics collector: host history and one history per VM.
pub struct MetricsCollector {
    host_history: History<HostMetrics>,
    vm_history: DashMap<u128, History<VmMetrics>>,
}

impl MetricsCollector {
    pub closed spec fn host(&self) -> Seq<HostMetrics> {
        self.host_history.items()
    }

    /// Whether VM `id` has a history.
    pub closed spec fn tracks(&self, id: u128) -> bool {
        history_table(self.vm_history).contains_key(id)
    }

    /// The history of VM `id` (meaningful when tracked).
    pub closed spec fn vm(&self, id: u128) -> Seq<VmMetrics> {
        history_table(self.vm_history)[id].items()
    }

    pub closed spec fn wf(&self) -> bool {
        &&& self.host_history.wf()
        &&& forall|id: u128| #[trigger] history_table(self.vm_history).contains_key(id)
            ==> history_table(self.vm_history)[id].wf()
    }

    /// A well-formed collector never holds more than `RING_BUFFER_SIZE`
    /// samples of the host or of any VM.
    pub proof fn law_collector_bounded(&self)
        requires
            self.wf(),
        ensures
            self.host().len() <= RING_BUFFER_SIZE,
            forall|id: u128| #[trigger] self.tracks(id) ==> self.vm(id).len() <= RING_BUFFER_SIZE,
    {
    }

    /// A collector with no samples and no VM.
    pub fn new() -> (c: Self)
        ensures
            c.wf(),
            c.host().len() == 0,
            forall|id: u128| !c.tracks(id),
    {
        MetricsCollector { host_history: History::new(), vm_history: histories_new() }
    }

    /// Start tracking VM `vm_id` (an existing history is kept).
    pub fn register_vm(&mut self, vm_id: u128)
        requires
            old(self).wf(),
        ensures
            final(self).wf(),
            final(self).tracks(vm_id),
            old(self).tracks(vm_id) ==> final(self).vm(vm_id) == old(self).vm(vm_id),
            !old(self).tracks(vm_id) ==> final(self).vm(vm_id).len() == 0,
            final(self).host() == old(self).host(),
            forall|id: u128| id != vm_id ==> final(self).tracks(id) == old(self).tracks(id)
                && (old(self).tracks(id) ==> final(self).vm(id) == old(self).vm(id)),
    {
        if !histories_contain(&self.vm_history, vm_id) {
            histories_insert(&mut self.vm_history, vm_id, History::new());
        }
    }

    /// Stop tracking VM `vm_id` and drop its history.
    pub fn deregister_vm(&mut self, vm_id: u128)
        requires
            old(self).wf(),
        ensures
            final(self).wf(),
            !final(self).tracks(vm_id),
            final(self).host() == old(self).host(),
            forall|id: u128| id != vm_id ==> final(self).tracks(id) == old(self).tracks(id)
                && (old(self).tracks(id) ==> final(self).vm(id) == old(self).vm(id)),
    {
        let _ = histories_take(&mut self.vm_history, vm_id);
    }

    /// Record one host sample (gathered by the host) and return it.
    pub fn sample_host(&mut self, metrics: HostMetrics) -> (r: HostMetrics)
        requires
            old(self).wf(),
        ensures
            final(self).wf(),
            r.same(&metrics),
            final(self).host().len() == recorded(old(self).host(), metrics).len(),
            final(self).host() == recorded(old(self).host(), final(self).host().last()),
            final(self).host().last().same(&metrics),
            forall|id: u128| final(self).tracks(id) == old(self).tracks(id)
                && (old(self).tracks(id) ==> final(self).vm(id) == old(self).vm(id)),
    {
        let copy = metrics.duplicate();
        self.host_history.push(copy);
        metrics
    }

    /// Record a VM sample, tracking the VM if it was not tracked yet.
    pub fn record_vm_metrics(&mut self, metrics: VmMetrics)
        requires
            old(self).wf(),
        ensures
            final(self).wf(),
            final(self).tracks(metrics.vm_id),
            final(self).vm(metrics.vm_id) == recorded(
                if old(self).tracks(metrics.vm_id) { old(self).vm(metrics.vm_id) } else { seq![] },
                metrics,
            ),
            final(self).host() == old(self).host(),
            forall|id: u128| id != metrics.vm_id ==> final(self).tracks(id) == old(self).tracks(id)
                && (old(self).tracks(id) ==> final(self).vm(id) == old(self).vm(id)),
    {
        let id = metrics.vm_id;
        let mut h = match histories_take(&mut self.vm_history, id) {
            Some(h) => h,
            None => History::new(),
        };
        h.push(metrics);
        histories_insert(&mut self.vm_history, id, h);
        proof {
            assert(history_table(self.vm_history).remove(id) =~= history_table(old(self).vm_history).remove(id));
        }
    }

    /// A copy of the newest host sample.
    pub fn latest_host(&self) -> (r: Option<HostMetrics>)
        requires
            self.wf(),
        ensures
            self.host().len() == 0 ==> r is None,
            self.host().len() > 0 ==> (r matches Some(x) && x.same(&self.host().last())),
    {
        self.host_history.latest()
    }

    /// The newest sample of VM `vm_id`, if any.
    pub fn latest_vm(&self, vm_id: u128) -> (r: Option<VmMetrics>)
        requires
            self.wf(),
        ensures
            !self.tracks(vm_id) || self.vm(vm_id).len() == 0 ==> r is None,
            self.tracks(vm_id) && self.vm(vm_id).len() > 0 ==> r == Some(self.vm(vm_id).last()),
    {
        histories_latest(&self.vm_history, vm_id)
    }

    /// Copies of all host samples, oldest first.
    pub fn host_history(&self) -> (r: Vec<HostMetrics>)
        ensures
            r@.len() == self.host().len(),
            forall|k: int| 0 <= k < r@.len() ==> #[trigger] r@[k].same(&self.host()[k]),
    {
        self.host_history.to_vec()
    }

    /// The samples of VM `vm_id`, oldest first, if it is tracked.
    pub fn vm_history(&self, vm_id: u128) -> (r: Option<Vec<VmMetrics>>)
        requires
            self.wf(),
        ensures
            !self.tracks(vm_id) ==> r is None,
            self.tracks(vm_id) ==> (r matches Some(v) && v@ == self.vm(vm_id)),
    {
        histories_items(&self.vm_history, vm_id)
    }
}

} // verus!

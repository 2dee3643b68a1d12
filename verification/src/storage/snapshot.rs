//! Snapshots of one disk. Snapshots form a graph: each new snapshot is a
//! child of the active one and becomes active itself.
use vstd::prelude::*;
use crate::clock::utc_now_millis;
use crate::storage::StorageError;
use crate::util::ids::{is_v4, new_uuid, uuid_to_string};
use crate::util::text::{path_join, push_str};

verus! {

/// Metadata of one snapshot.
#[derive(Debug)]
pub struct SnapshotMetadata {
    pub id: u128,
    /// The disk the snapshot belongs to.
    pub disk_id: u128,
    pub name: String,
    pub description: Option<String>,
    /// When it was taken, milliseconds since the Unix epoch.
    pub taken_at: i64,
    /// Parent snapshot (None for the first one).
    pub parent_id: Option<u128>,
    /// Clusters shared with the parent.
    pub shared_clusters: u64,
    /// Clusters written since diverging from the parent.
    pub private_clusters: u64,
    pub exported: bool,
}

impl SnapshotMetadata {
    /// Bytes held only by this snapshot: private clusters times the
    /// cluster size.
    pub fn exclusive_size_bytes(&self, cluster_size: u32) -> (r: u64)
        requires
            self.private_clusters * cluster_size <= u64::MAX,
        ensures
            r == self.private_clusters * cluster_size,
    {
        self.private_clusters * cluster_size as u64
    }

    /// A field-for-field copy.
    pub fn duplicate(&self) -> (r: Self)
        ensures
            r == *self,
    {
        SnapshotMetadata {
            id: self.id,
            disk_id: self.disk_id,
            name: self.name.clone(),
            description: match &self.description {
                Some(d) => Some(d.clone()),
                None => None,
            },
            taken_at: self.taken_at,
            parent_id: self.parent_id,
            shared_clusters: self.shared_clusters,
            private_clusters: self.private_clusters,
            exported: self.exported,
        }
    }
}

/// A snapshot node.
#[derive(Debug)]
pub struct Snapshot {
    pub metadata: SnapshotMetadata,
    /// Copy-on-write overlay image of the snapshot.
    pub overlay_path: String,
    /// Child snapshot ids.
    pub children: Vec<u128>,
}

/// Where `x` goes in `r` (sorted by time): after every entry taken no later.
pub open spec fn insert_position(r: Seq<SnapshotMetadata>, x: SnapshotMetadata) -> int
    decreases r.len(),
{
    if r.len() == 0 {
        0
    } else if r.last().taken_at <= x.taken_at {
        r.len() as int
    } else {
        insert_position(r.drop_last(), x)
    }
}

/// `s` sorted by time, entries taken at the same time kept in their order.
pub open spec fn sort_by_time(s: Seq<SnapshotMetadata>) -> Seq<SnapshotMetadata>
    decreases s.len(),
{
    if s.len() == 0 {
        seq![]
    } else {
        let r = sort_by_time(s.drop_last());
        r.insert(insert_position(r, s.last()), s.last())
    }
}

/// Non-decreasing in time.
pub open spec fn time_sorted(s: Seq<SnapshotMetadata>) -> bool {
    forall|i: int, j: int| 0 <= i <= j < s.len() ==> s[i].taken_at <= s[j].taken_at
}

proof fn lemma_insert_position(r: Seq<SnapshotMetadata>, x: SnapshotMetadata)
    requires
        time_sorted(r),
    ensures
        0 <= insert_position(r, x) <= r.len(),
        forall|k: int| 0 <= k < insert_position(r, x) ==> r[k].taken_at <= x.taken_at,
        forall|k: int| insert_position(r, x) <= k < r.len() ==> r[k].taken_at > x.taken_at,
    decreases r.len(),
{
    if r.len() == 0 {
    } else if r.last().taken_at <= x.taken_at {
        assert forall|k: int| 0 <= k < insert_position(r, x) implies r[k].taken_at <= x.taken_at by {
            assert(r[k].taken_at <= r[r.len() - 1].taken_at);
        }
    } else {
        let d = r.drop_last();
        assert(time_sorted(d));
        lemma_insert_position(d, x);
        assert forall|k: int| 0 <= k < insert_position(r, x) implies r[k].taken_at <= x.taken_at by {
            assert(d[k] == r[k]);
        }
        assert forall|k: int| insert_position(r, x) <= k < r.len() implies r[k].taken_at > x.taken_at by {
            if k < r.len() - 1 {
                assert(d[k] == r[k]);
            }
        }
    }
}

/// `sort_by_time` only reorders: its result holds each entry of its input
/// exactly as many times as the input does.
pub proof fn law_sort_by_time_permutes(s: Seq<SnapshotMetadata>)
    ensures
        sort_by_time(s).to_multiset() == s.to_multiset(),
    decreases s.len(),
{
    broadcast use vstd::seq_lib::group_to_multiset_ensures;
    if s.len() > 0 {
        law_sort_by_time_permutes(s.drop_last());
        let r = sort_by_time(s.drop_last());
        law_sort_by_time_sorted(s.drop_last());
        lemma_insert_position(r, s.last());
        let p = insert_position(r, s.last());
        vstd::seq_lib::to_multiset_insert(r, p, s.last());
        assert(s =~= s.drop_last().push(s.last()));
        assert(s.to_multiset() == s.drop_last().to_multiset().insert(s.last()));
    } else {
        assert(sort_by_time(s) =~= s);
    }
}

/// The time order of `sort_by_time` holds: its result is sorted and keeps
/// every entry.
pub proof fn law_sort_by_time_sorted(s: Seq<SnapshotMetadata>)
    ensures
        time_sorted(sort_by_time(s)),
        sort_by_time(s).len() == s.len(),
        forall|i: int| 0 <= i < s.len() ==> sort_by_time(s).contains(s[i]),
    decreases s.len(),
{
    if s.len() > 0 {
        law_sort_by_time_sorted(s.drop_last());
        let r = sort_by_time(s.drop_last());
        lemma_insert_position(r, s.last());
        let p = insert_position(r, s.last());
        let t = r.insert(p, s.last());
        assert forall|i: int, j: int| 0 <= i <= j < t.len() implies t[i].taken_at <= t[j].taken_at by {
        }
        assert forall|i: int| 0 <= i < s.len() implies t.contains(s[i]) by {
            if i == s.len() - 1 {
                assert(t[p] == s[i]);
            } else {
                assert(s.drop_last()[i] == s[i]);
                let k = choose|k: int| 0 <= k < r.len() && r[k] == s[i];
                if k < p {
                    assert(t[k] == s[i]);
                } else {
                    assert(t[k + 1] == s[i]);
                }
            }
        }
    }
}

/// The snapshots of one disk.
#[derive(Debug)]
pub struct SnapshotManager {
    disk_id: u128,
    snapshots: Vec<Snapshot>,
    active_snapshot_id: Option<u128>,
}

impl SnapshotManager {
    pub closed spec fn entries(&self) -> Seq<Snapshot> {
        self.snapshots@
    }

    pub closed spec fn disk(&self) -> u128 {
        self.disk_id
    }

    pub closed spec fn active(&self) -> Option<u128> {
        self.active_snapshot_id
    }

    pub open spec fn wf(&self) -> bool {
        forall|i: int, j: int| 0 <= i < self.entries().len() && 0 <= j < self.entries().len() && i != j
            ==> self.entries()[i].metadata.id != self.entries()[j].metadata.id
    }

    pub open spec fn has(&self, id: u128) -> bool {
        exists|i: int| 0 <= i < self.entries().len() && self.entries()[i].metadata.id == id
    }

    /// The metadata of all snapshots, in storage order.
    pub open spec fn metas(&self) -> Seq<SnapshotMetadata> {
        Seq::new(self.entries().len(), |i: int| self.entries()[i].metadata)
    }

    /// A manager for disk `disk_id` with no snapshots.
    pub fn new(disk_id: u128) -> (m: Self)
        ensures
            m.wf(),
            m.entries().len() == 0,
            m.disk() == disk_id,
            m.active() is None,
    {
        SnapshotManager { disk_id, snapshots: Vec::new(), active_snapshot_id: None }
    }

    fn position(&self, id: u128) -> (r: Option<usize>)
        ensures
            r is None ==> !self.has(id),
            r matches Some(i) ==> i < self.entries().len() && self.entries()[i as int].metadata.id == id,
    {
        let mut i: usize = 0;
        while i < self.snapshots.len()
            invariant
                i <= self.snapshots@.len(),
                forall|k: int| 0 <= k < i ==> self.snapshots@[k].metadata.id != id,
            decreases self.snapshots@.len() - i,
        {
            if self.snapshots[i].metadata.id == id {
                return Some(i);
            }
            i = i + 1;
        }
        None
    }

    /// Take a snapshot of the disk's current state: a child of the active
    /// snapshot (if any), which becomes the active snapshot. The VM should
    /// be paused or stopped.
    pub fn take_snapshot(&mut self, name: String, description: Option<String>, base_dir: &str) -> (r: Result<u128, StorageError>)
        requires
            old(self).wf(),
        ensures
            final(self).wf(),
            r matches Ok(id) && is_v4(id) && final(self).active() == Some(id) && final(self).has(id)
                && final(self).disk() == old(self).disk()
                && exists|k: int| 0 <= k < final(self).entries().len() && #[trigger] final(self).entries()[k].metadata.id == id && {
                    let m = final(self).entries()[k].metadata;
                    &&& m.disk_id == old(self).disk()
                    &&& m.name@ == name@
                    &&& m.description == description
                    &&& m.parent_id == old(self).active()
                    &&& m.shared_clusters == 0 && m.private_clusters == 0 && !m.exported
                    &&& final(self).entries()[k].children@.len() == 0
                },
            forall|x: u128| #[trigger] final(self).has(x) <== old(self).has(x),
    {
        let id = new_uuid();
        let parent_id = self.active_snapshot_id;
        let mut file = uuid_to_string(id);
        push_str(&mut file, ".overlay");
        let overlay_path = path_join(base_dir, file.as_str());
        let metadata = SnapshotMetadata {
            id,
            disk_id: self.disk_id,
            name,
            description,
            taken_at: utc_now_millis(),
            parent_id,
            shared_clusters: 0,
            private_clusters: 0,
            exported: false,
        };
        let snapshot = Snapshot { metadata, overlay_path, children: Vec::new() };
        if let Some(p) = parent_id {
            if let Some(pi) = self.position(p) {
                let ghost before = self.snapshots@;
                let mut parent = self.snapshots.remove(pi);
                parent.children.push(id);
                self.snapshots.insert(pi, parent);
                proof {
                    assert(self.snapshots@.len() == before.len());
                    assert forall|k: int| 0 <= k < before.len() implies #[trigger] self.snapshots@[k].metadata.id == before[k].metadata.id by {
                        if k < pi { } else if k == pi { } else { }
                    }
                    assert forall|x: u128| old(self).has(x) implies self.has(x) by {
                        let k = choose|k: int| 0 <= k < before.len() && before[k].metadata.id == x;
                        assert(self.snapshots@[k].metadata.id == x);
                    }
                }
            }
        }
        let ghost mid = self.snapshots@;
        let ghost mut p: int = 0;
        match self.position(id) {
            Some(i) => {
                self.snapshots.set(i, snapshot);
                proof { p = i as int; }
            },
            None => {
                self.snapshots.push(snapshot);
                proof { p = self.snapshots@.len() - 1; }
            },
        }
        self.active_snapshot_id = Some(id);
        proof {
            assert(self.entries()[p].metadata.id == id);
            assert forall|x: u128| old(self).has(x) implies self.has(x) by {
                assert(exists|k: int| 0 <= k < mid.len() && mid[k].metadata.id == x);
                let k = choose|k: int| 0 <= k < mid.len() && mid[k].metadata.id == x;
                if k == p {
                    assert(x == id);
                } else {
                    assert(self.entries()[k].metadata.id == x);
                }
            }
        }
        Ok(id)
    }

    /// Make snapshot `snapshot_id` the active one; fails when it does not exist.
    pub fn revert_to(&mut self, snapshot_id: u128) -> (r: Result<(), StorageError>)
        ensures
            final(self).entries() == old(self).entries(),
            final(self).disk() == old(self).disk(),
            !old(self).has(snapshot_id) ==> (r matches Err(StorageError::SnapshotNotFound(x)) && x == snapshot_id)
                && final(self).active() == old(self).active(),
            old(self).has(snapshot_id) ==> r is Ok && final(self).active() == Some(snapshot_id),
    {
        if self.position(snapshot_id).is_none() {
            return Err(StorageError::SnapshotNotFound(snapshot_id));
        }
        self.active_snapshot_id = Some(snapshot_id);
        Ok(())
    }

    /// Delete snapshot `snapshot_id`; if it was active, no snapshot is
    /// active afterwards. Fails when it does not exist.
    pub fn delete_snapshot(&mut self, snapshot_id: u128) -> (r: Result<(), StorageError>)
        requires
            old(self).wf(),
        ensures
            final(self).wf(),
            final(self).disk() == old(self).disk(),
            !old(self).has(snapshot_id) ==> (r matches Err(StorageError::SnapshotNotFound(x)) && x == snapshot_id)
                && final(self).entries() == old(self).entries() && final(self).active() == old(self).active(),
            old(self).has(snapshot_id) ==> r is Ok && !final(self).has(snapshot_id)
                && final(self).active() == (if old(self).active() == Some(snapshot_id) { None } else { old(self).active() })
                && forall|x: u128| x != snapshot_id ==> final(self).has(x) == old(self).has(x),
    {
        match self.position(snapshot_id) {
            None => Err(StorageError::SnapshotNotFound(snapshot_id)),
            Some(i) => {
                let _ = self.snapshots.remove(i);
                if self.active_snapshot_id == Some(snapshot_id) {
                    self.active_snapshot_id = None;
                }
                proof {
                    assert forall|x: u128| x != snapshot_id implies self.has(x) == old(self).has(x) by {
                        if old(self).has(x) {
                            let k = choose|k: int| 0 <= k < old(self).entries().len() && old(self).entries()[k].metadata.id == x;
                            if k < i { assert(self.entries()[k].metadata.id == x); } else { assert(self.entries()[k - 1].metadata.id == x); }
                        }
                        if self.has(x) {
                            let k = choose|k: int| 0 <= k < self.entries().len() && self.entries()[k].metadata.id == x;
                            if k < i { assert(old(self).entries()[k].metadata.id == x); } else { assert(old(self).entries()[k + 1].metadata.id == x); }
                        }
                    }
                    if self.has(snapshot_id) {
                        let k = choose|k: int| 0 <= k < self.entries().len() && self.entries()[k].metadata.id == snapshot_id;
                        if k < i { assert(old(self).entries()[k].metadata.id == snapshot_id); } else { assert(old(self).entries()[k + 1].metadata.id == snapshot_id); }
                    }
                }
                Ok(())
            },
        }
    }

    /// The metadata of all snapshots in time order (ties in storage order).
    pub fn list_snapshots(&self) -> (r: Vec<SnapshotMetadata>)
        ensures
            r@ == sort_by_time(self.metas()),
            time_sorted(r@),
            r@.len() == self.entries().len(),
            r@.to_multiset() == self.metas().to_multiset(),
    {
        let mut r: Vec<SnapshotMetadata> = Vec::new();
        let mut i: usize = 0;
        let ghost metas = self.metas();
        assert(metas.subrange(0, 0) =~= Seq::<SnapshotMetadata>::empty());
        while i < self.snapshots.len()
            invariant
                i <= self.snapshots@.len(),
                metas == self.metas(),
                r@ == sort_by_time(metas.subrange(0, i as int)),
            decreases self.snapshots@.len() - i,
        {
            let m = self.snapshots[i].metadata.duplicate();
            assert(metas.subrange(0, i + 1).drop_last() =~= metas.subrange(0, i as int));
            assert(metas.subrange(0, i + 1).last() == m);
            let mut pos = r.len();
            assert(r@.subrange(0, pos as int) =~= r@);
            while pos > 0 && r[pos - 1].taken_at > m.taken_at
                invariant
                    pos <= r@.len(),
                    insert_position(r@, m) == insert_position(r@.subrange(0, pos as int), m),
                decreases pos,
            {
                assert(r@.subrange(0, pos as int).drop_last() =~= r@.subrange(0, pos - 1));
                pos = pos - 1;
            }
            proof {
                if pos > 0 {
                    assert(r@.subrange(0, pos as int).last() == r@[pos - 1]);
                }
            }
            r.insert(pos, m);
            i = i + 1;
        }
        assert(metas.subrange(0, i as int) =~= metas);
        proof {
            law_sort_by_time_sorted(metas);
            law_sort_by_time_permutes(metas);
        }
        r
    }

    /// The active snapshot, if any.
    pub fn active_snapshot_id(&self) -> (r: Option<u128>)
        ensures
            r == self.active(),
    {
        self.active_snapshot_id
    }
}

} // verus!

//! Live snapshots of a VM: pause, record, resume, driven as one step on the
//! engine's bookkeeping.
use vstd::prelude::*;
use crate::clock::{elapsed_nanos, instant_now};
use crate::engine::error::{engine_error_text, joined3, prefixed, EngineError};
use crate::engine::registry::Engine;
use crate::engine::vm::{is_refusal, LifecycleAction, VmState};
use crate::storage::{storage_error_text, StorageError};
use crate::util::ids::{is_v4, new_uuid, uuid_text, uuid_to_string};

verus! {

/// Snapshot orchestration errors.
#[derive(Debug)]
pub enum SnapshotError {
    /// The VM is not in a state that can be snapshotted.
    InvalidVmState(u128),
    /// The engine refused a step.
    Engine(EngineError),
    /// The storage engine failed.
    Storage(StorageError),
    /// An unexpected internal error.
    Internal(String),
}

/// The text a snapshot error is shown as.
pub open spec fn snapshot_error_text(e: SnapshotError) -> Seq<char> {
    match e {
        SnapshotError::InvalidVmState(id) => "VM "@ + uuid_text(id) + " is not in a snapshotable state"@,
        SnapshotError::Engine(x) => "Engine error during snapshot: "@ + engine_error_text(x),
        SnapshotError::Storage(x) => "Storage error during snapshot: "@ + storage_error_text(x),
        SnapshotError::Internal(m) => "Internal snapshot error: "@ + m@,
    }
}

impl SnapshotError {
    /// The text the error is shown as.
    pub fn to_string(&self) -> (r: String)
        ensures
            r@ == snapshot_error_text(*self),
    {
        match self {
            SnapshotError::InvalidVmState(id) => {
                let t = uuid_to_string(*id);
                joined3("VM ", t.as_str(), " is not in a snapshotable state")
            },
            SnapshotError::Engine(x) => {
                let t = x.to_string();
                prefixed("Engine error during snapshot: ", t.as_str())
            },
            SnapshotError::Storage(x) => {
                let t = x.to_string();
                prefixed("Storage error during snapshot: ", t.as_str())
            },
            SnapshotError::Internal(m) => prefixed("Internal snapshot error: ", m.as_str()),
        }
    }
}

/// The outcome of a snapshot.
#[derive(Debug)]
pub struct SnapshotResult {
    /// The VM that was snapshotted.
    pub vm_id: u128,
    /// The id of the new snapshot.
    pub snapshot_id: u128,
    /// The snapshot's name.
    pub name: String,
    /// How long the operation took, in milliseconds.
    pub duration_ms: u64,
}

/// Drives the pause, snapshot, resume sequence on the engine.
pub struct SnapshotOrchestrator {
    engine: Engine,
}

impl SnapshotOrchestrator {
    /// The engine the orchestrator works on.
    pub closed spec fn engine_state(&self) -> Engine {
        self.engine
    }

    /// An orchestrator that drives `engine`.
    pub fn new(engine: Engine) -> (r: Self)
        ensures
            r.engine_state() == engine,
    {
        SnapshotOrchestrator { engine }
    }

    /// The engine.
    pub fn engine(&self) -> (r: &Engine)
        ensures
            *r == self.engine_state(),
    {
        &self.engine
    }

    /// Give the engine back.
    pub fn into_engine(self) -> (r: Engine)
        ensures
            r == self.engine_state(),
    {
        self.engine
    }

    /// Take a live snapshot of VM `vm_id`: the VM is paused, a snapshot id
    /// is drawn, and the VM is resumed. Only a running VM can be
    /// snapshotted; on success it is running again with nothing else changed.
    /// The host forwards the pause and resume to the VM's hypervisor handle.
    pub fn snapshot_vm(&mut self, vm_id: u128, name: String, _description: Option<String>) -> (r: Result<SnapshotResult, SnapshotError>)
        requires
            old(self).engine_state().wf(),
        ensures
            final(self).engine_state().wf(),
            !old(self).engine_state().reg().contains(vm_id) ==> (r matches Err(SnapshotError::Engine(EngineError::VmNotFound(x))) && x == vm_id),
            old(self).engine_state().reg().contains(vm_id) ==> {
                let vm = old(self).engine_state().reg().lookup(vm_id);
                let after = final(self).engine_state().reg().lookup(vm_id);
                if vm.vm_state() == VmState::Running {
                    &&& r matches Ok(res)
                    &&& res.vm_id == vm_id
                    &&& res.name@ == name@
                    &&& is_v4(res.snapshot_id)
                    &&& after.vm_state() == VmState::Running
                    &&& after.same_but_state(&vm)
                } else {
                    &&& r matches Err(SnapshotError::Engine(e))
                    &&& is_refusal(e, LifecycleAction::Pause, vm.vm_state())
                    &&& after == vm
                }
            },
            forall|other: u128| #[trigger] final(self).engine_state().reg().contains(other) == old(self).engine_state().reg().contains(other),
            forall|other: u128| other != vm_id && old(self).engine_state().reg().contains(other)
                ==> final(self).engine_state().reg().lookup(other) == old(self).engine_state().reg().lookup(other),
            forall|other: u128| final(self).engine_state().handle_of(other) == old(self).engine_state().handle_of(other),
    {
        let start = instant_now();
        match self.engine.control_vm(vm_id, LifecycleAction::Pause) {
            Ok(_) => {},
            Err(e) => {
                return Err(SnapshotError::Engine(e));
            },
        }
        let snapshot_id = new_uuid();
        match self.engine.control_vm(vm_id, LifecycleAction::Resume) {
            Ok(_) => {},
            Err(e) => {
                return Err(SnapshotError::Engine(e));
            },
        }
        let duration_ms = elapsed_nanos(&start) / 1_000_000;
        Ok(SnapshotResult { vm_id, snapshot_id, name, duration_ms })
    }
}

} // verus!

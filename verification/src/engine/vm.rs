//! Virtual machine state machine and lifecycle management.
use vstd::prelude::*;
use crate::clock::utc_now_millis;
use crate::engine::config::{FirmwareType, VmConfig};
use crate::engine::error::EngineError;
use crate::util::ids::{is_v4, new_uuid};
use crate::util::text::{trim, trim_string};

verus! {

/// All observable states a virtual machine can be in.
#[derive(Debug, Clone, Copy, PartialEq, Eq, Structural)]
pub enum VmState {
    /// Not running; no resources allocated.
    Stopped,
    /// Starting up.
    Starting,
    /// Running and accepting workloads.
    Running,
    /// vCPUs frozen, memory retained.
    Paused,
    /// Stopped after a fatal error.
    Crashed,
    /// Saving its state to disk.
    Saving,
    /// Being restored from a saved state.
    Restoring,
    /// Being cloned (source side).
    Cloning,
    /// Being destroyed.
    Destroying,
}

/// The lowercase name of a state.
pub open spec fn state_name(s: VmState) -> Seq<char> {
    match s {
        VmState::Stopped => "stopped"@,
        VmState::Starting => "starting"@,
        VmState::Running => "running"@,
        VmState::Paused => "paused"@,
        VmState::Crashed => "crashed"@,
        VmState::Saving => "saving"@,
        VmState::Restoring => "restoring"@,
        VmState::Cloning => "cloning"@,
        VmState::Destroying => "destroying"@,
    }
}

impl VmState {
    /// The lowercase name of the state, as shown to users.
    pub fn to_string(&self) -> (r: String)
        ensures
            r@ == state_name(*self),
    {
        match self {
            VmState::Stopped => String::from_str("stopped"),
            VmState::Starting => String::from_str("starting"),
            VmState::Running => String::from_str("running"),
            VmState::Paused => String::from_str("paused"),
            VmState::Crashed => String::from_str("crashed"),
            VmState::Saving => String::from_str("saving"),
            VmState::Restoring => String::from_str("restoring"),
            VmState::Cloning => String::from_str("cloning"),
            VmState::Destroying => String::from_str("destroying"),
        }
    }
}

/// A lifecycle request.
pub enum LifecycleAction {
    Start,
    Pause,
    Resume,
    Stop,
    Reset,
    Destroy,
}

/// The name of an action, as it appears in a refusal.
pub open spec fn action_name(a: LifecycleAction) -> Seq<char> {
    match a {
        LifecycleAction::Start => "start"@,
        LifecycleAction::Pause => "pause"@,
        LifecycleAction::Resume => "resume"@,
        LifecycleAction::Stop => "stop"@,
        LifecycleAction::Reset => "reset"@,
        LifecycleAction::Destroy => "destroy"@,
    }
}

/// The state a VM in state `s` reaches by `a`, or `None` when `a` is refused:
/// start from Stopped or Crashed, pause from Running, resume from Paused,
/// stop from Running or Paused, reset from Running; destroy always ends
/// Stopped.
pub open spec fn next_state(s: VmState, a: LifecycleAction) -> Option<VmState> {
    match a {
        LifecycleAction::Start => if s == VmState::Stopped || s == VmState::Crashed { Some(VmState::Running) } else { None },
        LifecycleAction::Pause => if s == VmState::Running { Some(VmState::Paused) } else { None },
        LifecycleAction::Resume => if s == VmState::Paused { Some(VmState::Running) } else { None },
        LifecycleAction::Stop => if s == VmState::Running || s == VmState::Paused { Some(VmState::Stopped) } else { None },
        LifecycleAction::Reset => if s == VmState::Running { Some(VmState::Running) } else { None },
        LifecycleAction::Destroy => Some(VmState::Stopped),
    }
}

/// The refusal of `a` in state `s`.
pub open spec fn is_refusal(e: EngineError, a: LifecycleAction, s: VmState) -> bool {
    e matches EngineError::InvalidStateTransition { action, current_state }
        && action@ == action_name(a) && current_state@ == state_name(s)
}

/// Runtime statistics for a virtual machine.
#[derive(Debug, Clone, Copy, PartialEq, Eq, Structural)]
pub struct VmStats {
    /// IEEE-754 double bits of the CPU usage across all vCPUs (0–100 %).
    pub cpu_percent_bits: u64,
    /// Guest RAM in use, in MiB.
    pub memory_used_mib: u64,
    /// Disk read throughput in bytes per second.
    pub disk_read_bps: u64,
    /// Disk write throughput in bytes per second.
    pub disk_write_bps: u64,
    /// Network receive throughput in bytes per second.
    pub net_rx_bps: u64,
    /// Network transmit throughput in bytes per second.
    pub net_tx_bps: u64,
}

/// Statistics before any sample.
pub open spec fn zero_stats() -> VmStats {
    VmStats { cpu_percent_bits: 0, memory_used_mib: 0, disk_read_bps: 0, disk_write_bps: 0, net_rx_bps: 0, net_tx_bps: 0 }
}

impl Default for VmStats {
    fn default() -> (s: Self)
        ensures
            s == zero_stats(),
    {
        VmStats { cpu_percent_bits: 0, memory_used_mib: 0, disk_read_bps: 0, disk_write_bps: 0, net_rx_bps: 0, net_tx_bps: 0 }
    }
}

/// Why a configuration is rejected, if it is: an empty (all white-space)
/// name, no vCPU, no memory, or Secure Boot without UEFI — checked in that
/// order.
pub open spec fn config_error(cfg: VmConfig) -> Option<Seq<char>> {
    if trim(cfg.name@).len() == 0 {
        Some("VM name must not be empty"@)
    } else if cfg.cpu.vcpus == 0 {
        Some("VM must have at least one vCPU"@)
    } else if cfg.memory.size_mib == 0 {
        Some("VM memory must be > 0 MiB"@)
    } else if cfg.secure_boot && cfg.firmware != FirmwareType::Uefi {
        Some("Secure Boot requires UEFI firmware"@)
    } else {
        None
    }
}

/// `r` reports exactly the configuration error of `cfg`.
pub open spec fn reports_config(r: Result<(), EngineError>, cfg: VmConfig) -> bool {
    match config_error(cfg) {
        None => r is Ok,
        Some(msg) => r matches Err(EngineError::Config(m)) && m@ == msg,
    }
}

/// A virtual machine managed by the engine.
#[derive(Debug)]
pub struct VirtualMachine {
    id: u128,
    config: VmConfig,
    state: VmState,
    created_at: i64,
    updated_at: i64,
    stats: VmStats,
}

impl VirtualMachine {
    pub closed spec fn vm_id(&self) -> u128 {
        self.id
    }

    pub closed spec fn vm_config(&self) -> VmConfig {
        self.config
    }

    pub closed spec fn vm_state(&self) -> VmState {
        self.state
    }

    pub closed spec fn vm_created_at(&self) -> i64 {
        self.created_at
    }

    /// Time of the last change; every transition sets it to the current time.
    pub closed spec fn vm_updated_at(&self) -> i64 {
        self.updated_at
    }

    pub closed spec fn vm_stats(&self) -> VmStats {
        self.stats
    }

    /// Everything but the state and the update time is as in `other`.
    pub open spec fn same_but_state(&self, other: &Self) -> bool {
        &&& self.vm_id() == other.vm_id()
        &&& self.vm_config() == other.vm_config()
        &&& self.vm_created_at() == other.vm_created_at()
        &&& self.vm_stats() == other.vm_stats()
    }

    /// Create a stopped VM from `config`, with a fresh random id, after
    /// checking the configuration.
    pub fn new(config: VmConfig) -> (r: Result<Self, EngineError>)
        ensures
            config_error(config) is None ==> (r matches Ok(vm) && vm.vm_config() == config
                && vm.vm_state() == VmState::Stopped && is_v4(vm.vm_id())
                && vm.vm_stats() == zero_stats() && vm.vm_created_at() == vm.vm_updated_at()),
            config_error(config) is Some ==> (r matches Err(EngineError::Config(m)) && m@ == config_error(config).unwrap()),
    {
        let checked = Self::validate_config(&config);
        match checked {
            Err(e) => Err(e),
            Ok(()) => {
                let now = utc_now_millis();
                Ok(VirtualMachine {
                    id: new_uuid(),
                    config,
                    state: VmState::Stopped,
                    created_at: now,
                    updated_at: now,
                    stats: VmStats::default(),
                })
            },
        }
    }

    /// The VM's stable unique identifier.
    pub fn id(&self) -> (r: u128)
        ensures
            r == self.vm_id(),
    {
        self.id
    }

    /// The VM's configuration.
    pub fn config(&self) -> (r: &VmConfig)
        ensures
            *r == self.vm_config(),
    {
        &self.config
    }

    /// The VM's configuration, for live editing.
    pub fn config_mut(&mut self) -> (r: &mut VmConfig)
        ensures
            *r == old(self).vm_config(),
            final(self).vm_config() == *final(r),
            final(self).vm_id() == old(self).vm_id(),
            final(self).vm_state() == old(self).vm_state(),
            final(self).vm_created_at() == old(self).vm_created_at(),
            final(self).vm_stats() == old(self).vm_stats(),
    {
        &mut self.config
    }

    /// The current state.
    pub fn state(&self) -> (r: &VmState)
        ensures
            *r == self.vm_state(),
    {
        &self.state
    }

    /// Creation time, in milliseconds since the Unix epoch.
    pub fn created_at(&self) -> (r: i64)
        ensures
            r == self.vm_created_at(),
    {
        self.created_at
    }

    /// Time of the last change, in milliseconds since the Unix epoch.
    pub fn updated_at(&self) -> (r: i64)
        ensures
            r == self.vm_updated_at(),
    {
        self.updated_at
    }

    /// The latest runtime statistics.
    pub fn stats(&self) -> (r: &VmStats)
        ensures
            *r == self.vm_stats(),
    {
        &self.stats
    }

    /// Replace the statistics snapshot.
    pub fn update_stats(&mut self, stats: VmStats)
        ensures
            final(self).vm_stats() == stats,
            final(self).vm_id() == old(self).vm_id(),
            final(self).vm_state() == old(self).vm_state(),
            final(self).vm_config() == old(self).vm_config(),
            final(self).vm_created_at() == old(self).vm_created_at(),
    {
        self.stats = stats;
        self.updated_at = utc_now_millis();
    }

    fn transition(&mut self, next: VmState)
        ensures
            final(self).vm_state() == next,
            final(self).same_but_state(&*old(self)),
    {
        self.state = next;
        self.updated_at = utc_now_millis();
    }

    fn refuse(&self, action: &str) -> (e: EngineError)
        ensures
            e matches EngineError::InvalidStateTransition { action: a, current_state }
                && a@ == action@ && current_state@ == state_name(self.vm_state()),
    {
        EngineError::InvalidStateTransition { action: String::from_str(action), current_state: self.state.to_string() }
    }

    /// Start the VM. Only valid from Stopped or Crashed; ends Running.
    pub fn start(&mut self) -> (r: Result<(), EngineError>)
        ensures
            next_state(old(self).vm_state(), LifecycleAction::Start) matches Some(s) ==> r is Ok
                && final(self).vm_state() == s && final(self).same_but_state(&*old(self)),
            next_state(old(self).vm_state(), LifecycleAction::Start) is None ==> (r matches Err(e)
                && is_refusal(e, LifecycleAction::Start, old(self).vm_state()) && *final(self) == *old(self)),
    {
        if self.state == VmState::Stopped || self.state == VmState::Crashed {
            self.transition(VmState::Starting);
            self.transition(VmState::Running);
            Ok(())
        } else {
            Err(self.refuse("start"))
        }
    }

    /// Pause the VM. Only valid from Running.
    pub fn pause(&mut self) -> (r: Result<(), EngineError>)
        ensures
            next_state(old(self).vm_state(), LifecycleAction::Pause) matches Some(s) ==> r is Ok
                && final(self).vm_state() == s && final(self).same_but_state(&*old(self)),
            next_state(old(self).vm_state(), LifecycleAction::Pause) is None ==> (r matches Err(e)
                && is_refusal(e, LifecycleAction::Pause, old(self).vm_state()) && *final(self) == *old(self)),
    {
        self.require_state(VmState::Running, "pause")?;
        self.transition(VmState::Paused);
        Ok(())
    }

    /// Resume a paused VM. Only valid from Paused.
    pub fn resume(&mut self) -> (r: Result<(), EngineError>)
        ensures
            next_state(old(self).vm_state(), LifecycleAction::Resume) matches Some(s) ==> r is Ok
                && final(self).vm_state() == s && final(self).same_but_state(&*old(self)),
            next_state(old(self).vm_state(), LifecycleAction::Resume) is None ==> (r matches Err(e)
                && is_refusal(e, LifecycleAction::Resume, old(self).vm_state()) && *final(self) == *old(self)),
    {
        self.require_state(VmState::Paused, "resume")?;
        self.transition(VmState::Running);
        Ok(())
    }

    /// Gracefully stop the VM. Valid from Running or Paused.
    pub fn stop(&mut self) -> (r: Result<(), EngineError>)
        ensures
            next_state(old(self).vm_state(), LifecycleAction::Stop) matches Some(s) ==> r is Ok
                && final(self).vm_state() == s && final(self).same_but_state(&*old(self)),
            next_state(old(self).vm_state(), LifecycleAction::Stop) is None ==> (r matches Err(e)
                && is_refusal(e, LifecycleAction::Stop, old(self).vm_state()) && *final(self) == *old(self)),
    {
        if self.state == VmState::Running || self.state == VmState::Paused {
            self.transition(VmState::Stopped);
            Ok(())
        } else {
            Err(self.refuse("stop"))
        }
    }

    /// Hard-reset the VM. Only valid from Running; passes through Starting
    /// and ends Running.
    pub fn reset(&mut self) -> (r: Result<(), EngineError>)
        ensures
            next_state(old(self).vm_state(), LifecycleAction::Reset) matches Some(s) ==> r is Ok
                && final(self).vm_state() == s && final(self).same_but_state(&*old(self)),
            next_state(old(self).vm_state(), LifecycleAction::Reset) is None ==> (r matches Err(e)
                && is_refusal(e, LifecycleAction::Reset, old(self).vm_state()) && *final(self) == *old(self)),
    {
        self.require_state(VmState::Running, "reset")?;
        self.transition(VmState::Starting);
        self.transition(VmState::Running);
        Ok(())
    }

    /// Destroy the VM: passes through Destroying and ends Stopped. Always
    /// succeeds; the caller removes the VM from the registry afterwards.
    pub fn destroy(&mut self) -> (r: Result<(), EngineError>)
        ensures
            r is Ok,
            final(self).vm_state() == VmState::Stopped,
            final(self).same_but_state(&*old(self)),
    {
        self.transition(VmState::Destroying);
        self.transition(VmState::Stopped);
        Ok(())
    }

    /// Put the VM in Stopped without checking the current state (rollback
    /// after a failed hypervisor start).
    pub fn force_stopped(&mut self)
        ensures
            final(self).vm_state() == VmState::Stopped,
            final(self).same_but_state(&*old(self)),
    {
        self.transition(VmState::Stopped);
    }

    /// Put the VM in Running without checking the current state (after a
    /// hypervisor handle is re-created for a restored VM).
    pub fn force_running(&mut self)
        ensures
            final(self).vm_state() == VmState::Running,
            final(self).same_but_state(&*old(self)),
    {
        self.transition(VmState::Running);
    }

    fn require_state(&self, required: VmState, action: &str) -> (r: Result<(), EngineError>)
        ensures
            self.vm_state() == required ==> r is Ok,
            self.vm_state() != required ==> (r matches Err(EngineError::InvalidStateTransition { action: a, current_state })
                && a@ == action@ && current_state@ == state_name(self.vm_state())),
    {
        if self.state != required {
            Err(self.refuse(action))
        } else {
            Ok(())
        }
    }

    /// Check a configuration: the name must not be blank, there must be a
    /// vCPU and some memory, and Secure Boot needs UEFI.
    pub fn validate_config(cfg: &VmConfig) -> (r: Result<(), EngineError>)
        ensures
            reports_config(r, *cfg),
    {
        let name = trim_string(cfg.name.as_str());
        if name.as_str().unicode_len() == 0 {
            return Err(EngineError::Config(String::from_str("VM name must not be empty")));
        }
        if cfg.cpu.vcpus == 0 {
            return Err(EngineError::Config(String::from_str("VM must have at least one vCPU")));
        }
        if cfg.memory.size_mib == 0 {
            return Err(EngineError::Config(String::from_str("VM memory must be > 0 MiB")));
        }
        if cfg.secure_boot && cfg.firmware != FirmwareType::Uefi {
            return Err(EngineError::Config(String::from_str("Secure Boot requires UEFI firmware")));
        }
        Ok(())
    }
}

/// Pausing a VM and resuming it gives back the state it was paused from.
pub proof fn law_pause_resume_round_trip(s: VmState)
    requires
        next_state(s, LifecycleAction::Pause) is Some,
    ensures
        next_state(next_state(s, LifecycleAction::Pause).unwrap(), LifecycleAction::Resume) == Some(s),
{
}

/// A VM that starts can always be stopped again, and stopping it returns
/// it to Stopped.
pub proof fn law_start_then_stop(s: VmState)
    requires
        next_state(s, LifecycleAction::Start) is Some,
    ensures
        next_state(next_state(s, LifecycleAction::Start).unwrap(), LifecycleAction::Stop) == Some(VmState::Stopped),
{
}

/// Every successful lifecycle action other than pause and stop leaves the VM
/// running or stopped, never in a transient state (Starting, Destroying).
pub proof fn law_no_transient_result(s: VmState, a: LifecycleAction)
    requires
        next_state(s, a) is Some,
    ensures
        next_state(s, a).unwrap() == VmState::Running || next_state(s, a).unwrap() == VmState::Stopped
            || next_state(s, a).unwrap() == VmState::Paused,
{
}

/// A crashed VM can only be started (or destroyed).
pub proof fn law_crashed_only_restarts(a: LifecycleAction)
    requires
        next_state(VmState::Crashed, a) is Some,
    ensures
        a == LifecycleAction::Start || a == LifecycleAction::Destroy,
{
}

/// Whatever state a successful start, pause or resume leaves a VM in, the VM
/// can then be stopped, and stopping leaves it Stopped: a running VM and a
/// paused VM can both be shut down.
pub proof fn law_every_live_vm_stops(s: VmState, a: LifecycleAction)
    requires
        a == LifecycleAction::Start || a == LifecycleAction::Pause || a == LifecycleAction::Resume,
        next_state(s, a) is Some,
    ensures
        next_state(next_state(s, a).unwrap(), LifecycleAction::Stop) == Some(VmState::Stopped),
{
}

/// Stopping succeeds from exactly the states a VM reaches by starting or by
/// pausing (Running and Paused), and never from any other.
pub proof fn law_stop_allowed_where_reachable(s: VmState)
    ensures
        next_state(s, LifecycleAction::Stop) is Some <==> (next_state(VmState::Stopped, LifecycleAction::Start) == Some(s)
            || next_state(VmState::Running, LifecycleAction::Pause) == Some(s)),
{
}

} // verus!

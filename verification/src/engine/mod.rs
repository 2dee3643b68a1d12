//! The VM lifecycle engine: configuration, the VM state machine, the VM
//! registry and the engine's bookkeeping around hypervisor calls.
pub mod config;
pub mod error;
pub mod vm;
pub mod registry;

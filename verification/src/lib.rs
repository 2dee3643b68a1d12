//! NovaVM core library: the emulated PC devices and backend decisions, the
//! VM lifecycle, resource managers, storage metadata, the guest agent
//! protocol and the application state, each with machine-checked contracts.
use vstd::prelude::*;

pub mod agent;
pub mod api;
pub mod clock;
pub mod display;
pub mod engine;
pub mod hypervisor;
pub mod memory;
pub mod monitor;
pub mod network;
pub mod scheduler;
pub mod sdk;
pub mod snapshot;
pub mod state;
pub mod storage;
pub mod util;

verus! {

} // verus!

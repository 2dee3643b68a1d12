//! Engine error types.
use vstd::prelude::*;
use crate::util::ids::{uuid_text, uuid_to_string};
use crate::util::text::push_str;

verus! {

/// Errors produced by the engine and its sub-systems.
#[derive(Debug)]
pub enum EngineError {
    /// No VM with this id is registered.
    VmNotFound(u128),
    /// The requested state transition is not valid from the current state.
    InvalidStateTransition { action: String, current_state: String },
    /// The hypervisor backend returned an error.
    Hypervisor(String),
    /// A storage operation failed (the storage error's text).
    Storage(String),
    /// A network operation failed (the network error's text).
    Network(String),
    /// A configuration validation error.
    Config(String),
    /// An I/O error.
    Io(String),
    /// An unexpected internal error.
    Internal(String),
}

/// The text an engine error is shown as.
pub open spec fn engine_error_text(e: EngineError) -> Seq<char> {
    match e {
        EngineError::VmNotFound(id) => "VM "@ + uuid_text(id) + " not found"@,
        EngineError::InvalidStateTransition { action, current_state } =>
            "Invalid state transition: cannot "@ + action@ + " a VM in state "@ + current_state@,
        EngineError::Hypervisor(m) => "Hypervisor error: "@ + m@,
        EngineError::Storage(m) => "Storage error: "@ + m@,
        EngineError::Network(m) => "Network error: "@ + m@,
        EngineError::Config(m) => "Configuration error: "@ + m@,
        EngineError::Io(m) => "I/O error: "@ + m@,
        EngineError::Internal(m) => "Internal error: "@ + m@,
    }
}

/// `prefix` followed by `m`.
pub(crate) fn prefixed(prefix: &str, m: &str) -> (r: String)
    ensures
        r@ == prefix@ + m@,
{
    let mut s = String::from_str(prefix);
    push_str(&mut s, m);
    s
}

/// `a`, then `b`, then `c`.
pub(crate) fn joined3(a: &str, b: &str, c: &str) -> (r: String)
    ensures
        r@ == a@ + b@ + c@,
{
    let mut s = String::from_str(a);
    push_str(&mut s, b);
    push_str(&mut s, c);
    s
}

impl EngineError {
    /// The text the error is shown as.
    pub fn to_string(&self) -> (r: String)
        ensures
            r@ == engine_error_text(*self),
    {
        match self {
            EngineError::VmNotFound(id) => {
                let t = uuid_to_string(*id);
                joined3("VM ", t.as_str(), " not found")
            },
            EngineError::InvalidStateTransition { action, current_state } => {
                let mut s = joined3("Invalid state transition: cannot ", action.as_str(), " a VM in state ");
                push_str(&mut s, current_state.as_str());
                s
            },
            EngineError::Hypervisor(m) => prefixed("Hypervisor error: ", m.as_str()),
            EngineError::Storage(m) => prefixed("Storage error: ", m.as_str()),
            EngineError::Network(m) => prefixed("Network error: ", m.as_str()),
            EngineError::Config(m) => prefixed("Configuration error: ", m.as_str()),
            EngineError::Io(m) => prefixed("I/O error: ", m.as_str()),
            EngineError::Internal(m) => prefixed("Internal error: ", m.as_str()),
        }
    }
}

} // verus!

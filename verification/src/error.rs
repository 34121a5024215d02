//! The failure taxonomy of the session layer.
//!
//! Every failure surfaced to an external caller is a flattened,
//! human-readable string; no internal error-chain structure crosses the
//! boundary.

use vstd::prelude::*;

verus! {

/// What can go wrong in the session layer, and how far it reaches.
#[derive(Debug)]
pub enum SessionError {
    /// A new configuration was invalid at the facade level; the specific
    /// `create` or `update` call is aborted and nothing is applied.
    ConfigurationRejected,
    /// An engine-level evaluation error during a subscription cycle,
    /// pretty-printed into one message; terminal for that subscription only.
    ComputeFailure { message: String },
    /// The delivery target is gone; terminal and silent.
    SinkClosed,
    /// Port allocation failed at `port`; `message` is the last bind error,
    /// surfaced unchanged. Fatal for startup.
    BindFailure { port: u16, message: String },
    /// A partial update's base no longer matches the session's held
    /// version; the subscriber is degraded to a restart instruction rather
    /// than failed.
    StaleVersionMismatch,
}

impl SessionError {
    /// The flattened, human-readable form handed across the boundary.
    pub fn message(&self) -> (r: String)
        ensures
            match self {
                SessionError::ConfigurationRejected => r@ == "configuration rejected"@,
                SessionError::ComputeFailure { message } => r@ == message@,
                SessionError::SinkClosed => r@ == "delivery sink closed"@,
                SessionError::BindFailure { port: _, message } => r@ == message@,
                SessionError::StaleVersionMismatch => r@ == "stale version mismatch"@,
            },
    {
        match self {
            SessionError::ConfigurationRejected => String::from_str("configuration rejected"),
            SessionError::ComputeFailure { message } => message.clone(),
            SessionError::SinkClosed => String::from_str("delivery sink closed"),
            SessionError::BindFailure { port: _, message } => message.clone(),
            SessionError::StaleVersionMismatch => String::from_str("stale version mismatch"),
        }
    }
}

} // verus!

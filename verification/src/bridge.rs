//! The bridge layer's data model: the common error type and the
//! configurable builders that synchronous front ends use to assemble the
//! health checker and the configuration merger. The runtimes and locks
//! that carry calls across threads are the caller's.

pub mod health_bridge;
pub mod merger_bridge;

use vstd::prelude::*;

verus! {

/// Result type of the bridge layer.
pub type BridgeResult<T> = Result<T, BridgeError>;

/// The bridge layer's error: which subsystem failed, with its description.
#[derive(Debug, Clone)]
pub enum BridgeError {
    /// Configuration management failed.
    Config(String),
    /// A health check failed.
    Health(String),
    /// The file watcher failed.
    Watcher(String),
    /// The configuration merger failed.
    Merger(String),
    /// The runtime carrying a call failed.
    Runtime(String),
    /// An I/O operation failed.
    Io(String),
}

/// The diagnostic text of each bridge error, naming the failing subsystem.
pub open spec fn spec_bridge_error_message(e: BridgeError) -> Seq<char> {
    match e {
        BridgeError::Config(d) => "Configuration error: "@ + d@,
        BridgeError::Health(d) => "Health check error: "@ + d@,
        BridgeError::Watcher(d) => "File watcher error: "@ + d@,
        BridgeError::Merger(d) => "Configuration merger error: "@ + d@,
        BridgeError::Runtime(d) => "Runtime error: "@ + d@,
        BridgeError::Io(d) => "IO error: "@ + d@,
    }
}

impl BridgeError {
    /// Render the diagnostic text; it is never empty.
    pub fn message(&self) -> (r: String)
        ensures
            r@ == spec_bridge_error_message(*self),
            r@.len() > 0,
    {
        proof {
            reveal_strlit("Configuration error: ");
            reveal_strlit("Health check error: ");
            reveal_strlit("File watcher error: ");
            reveal_strlit("Configuration merger error: ");
            reveal_strlit("Runtime error: ");
            reveal_strlit("IO error: ");
        }
        match self {
            BridgeError::Config(d) => String::from_str("Configuration error: ").concat(d.as_str()),
            BridgeError::Health(d) => String::from_str("Health check error: ").concat(d.as_str()),
            BridgeError::Watcher(d) => String::from_str("File watcher error: ").concat(d.as_str()),
            BridgeError::Merger(d) => String::from_str("Configuration merger error: ").concat(
                d.as_str(),
            ),
            BridgeError::Runtime(d) => String::from_str("Runtime error: ").concat(d.as_str()),
            BridgeError::Io(d) => String::from_str("IO error: ").concat(d.as_str()),
        }
    }
}

} // verus!

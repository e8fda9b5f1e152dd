//! Error taxonomy for the coordination layer.
//!
//! Hardware and transport failures are caught at the lowest level and turned
//! into one of these typed errors before they cross a reply slot back to a
//! caller; raw transport failures never propagate.

use vstd::prelude::*;

use crate::text::{spec_dec_digits, u32_dec};

verus! {

/// A typed failure of one actor operation.
#[derive(Debug, Clone, PartialEq, Eq)]
pub enum SorterError {
    /// The network transport failed (timeout, connection refused, ...).
    /// Carries a human-readable description of the underlying failure.
    Transport(String),
    /// The device answered with a non-success status code.
    Protocol(u16),
    /// The named device id is not in the actor's device set.
    NotFound(String),
    /// The operation is not valid in the current state
    /// (offline device, out-of-range value, unsupported device kind).
    InvalidState(String),
    /// The actor has stopped; its command channel no longer accepts work.
    ActorUnavailable,
}

impl SorterError {
    /// A human-readable description of this error, for response envelopes
    /// and logs.
    pub fn message(&self) -> (r: String)
        ensures
            match self {
                SorterError::Transport(m) => r@ == "Transport error: "@ + m@,
                SorterError::Protocol(status) => r@ == "Device answered with status "@
                    + spec_dec_digits(*status as int),
                SorterError::NotFound(m) => r@ == "Not found: "@ + m@,
                SorterError::InvalidState(m) => r@ == "Invalid state: "@ + m@,
                SorterError::ActorUnavailable => r@ == "Actor is not available"@,
            },
    {
        match self {
            SorterError::Transport(m) => {
                let r = "Transport error: ".to_owned().concat(m.as_str());
                proof {
                    assert(r@ =~= "Transport error: "@ + m@);
                }
                r
            },
            SorterError::Protocol(status) => {
                let r = "Device answered with status ".to_owned().concat(
                    u32_dec(*status as u32).as_str(),
                );
                proof {
                    assert(r@ =~= "Device answered with status "@ + spec_dec_digits(
                        *status as int,
                    ));
                }
                r
            },
            SorterError::NotFound(m) => {
                let r = "Not found: ".to_owned().concat(m.as_str());
                proof {
                    assert(r@ =~= "Not found: "@ + m@);
                }
                r
            },
            SorterError::InvalidState(m) => {
                let r = "Invalid state: ".to_owned().concat(m.as_str());
                proof {
                    assert(r@ =~= "Invalid state: "@ + m@);
                }
                r
            },
            SorterError::ActorUnavailable => "Actor is not available".to_owned(),
        }
    }
}

} // verus!

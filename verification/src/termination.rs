//! Why a running client was asked to stop.

use vstd::prelude::*;
use vstd::string::StringExecFns;

verus! {

/// The reason a running client stops.
#[derive(Clone, Copy, Debug, PartialEq, Eq, Structural)]
pub enum StopReason {
    /// A stop signal arrived.
    SignalReceived,
}

impl StopReason {
    /// The reason raised when a stop signal arrives.
    pub fn signal_received() -> (r: Self)
        ensures
            r == StopReason::SignalReceived,
    {
        StopReason::SignalReceived
    }

    /// A short display text for the reason.
    pub fn message(&self) -> (r: String)
        ensures
            r@ == "signal received"@,
    {
        String::from_str("signal received")
    }
}

} // verus!

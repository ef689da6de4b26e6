//! What may go wrong around a session, and how the relay responds.
//!
//! A failure to bind the listening port ends the process at startup.
//! Failures to accept, read or write are logged; the operation at hand is
//! skipped and the loop goes on. A subscriber that lags loses packets
//! without any error being raised. A packet that cannot be serialised is
//! dropped and logged like a failed write. No failure of one session
//! touches another session, the registry or the router.

use vstd::prelude::*;

verus! {

/// A failure reported to the relay.
#[derive(Clone, Copy, Debug, PartialEq, Eq, Structural)]
pub enum Fault {
    /// The listening port could not be bound.
    Bind,
    /// An incoming connection could not be accepted.
    Accept,
    /// Reading from a client's reliable channel failed.
    Read,
    /// Writing to a client's reliable channel failed.
    Write,
    /// A subscription fell behind and lost its oldest packets.
    SubscriberLag,
    /// An outgoing packet could not be serialised.
    Serialization,
}

/// What the relay does about a failure.
#[derive(Clone, Copy, Debug, PartialEq, Eq, Structural)]
pub enum Recovery {
    /// End the process.
    Abort,
    /// Log the failure, skip the operation at hand and go on.
    LogAndContinue,
    /// Go on without a word; the delivery is simply left out.
    SilentDrop,
}

/// The response laid down for each failure.
pub open spec fn recovery_of(fault: Fault) -> Recovery {
    match fault {
        Fault::Bind => Recovery::Abort,
        Fault::Accept => Recovery::LogAndContinue,
        Fault::Read => Recovery::LogAndContinue,
        Fault::Write => Recovery::LogAndContinue,
        Fault::SubscriberLag => Recovery::SilentDrop,
        Fault::Serialization => Recovery::LogAndContinue,
    }
}

/// Says how to respond to `fault`.
pub fn recovery(fault: Fault) -> (response: Recovery)
    ensures
        response == recovery_of(fault),
        response == Recovery::Abort <==> fault == Fault::Bind,
        response == Recovery::SilentDrop <==> fault == Fault::SubscriberLag,
{
    match fault {
        Fault::Bind => Recovery::Abort,
        Fault::SubscriberLag => Recovery::SilentDrop,
        Fault::Accept | Fault::Read | Fault::Write | Fault::Serialization => Recovery::LogAndContinue,
    }
}

} // verus!

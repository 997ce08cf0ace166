//! What a failure means for the session.

use vstd::prelude::*;

verus! {

/// The ways in which a session can fail.
#[derive(Clone, Copy, Debug, PartialEq, Eq, Structural)]
pub enum Failure {
    /// No default output device, format rejected, or the stream did not start.
    Device,
    /// A read from the endpoint failed after the stream started.
    Capture,
    /// An outbound connection attempt failed.
    TransportConnect,
    /// A send on an established connection failed.
    TransportSend,
}

/// What the session does about a failure.
#[derive(Clone, Copy, Debug, PartialEq, Eq, Structural)]
pub enum Disposition {
    /// The session ends and reports the failure.
    Abort,
    /// The session goes on; chunks made while the link is down are lost.
    Continue,
}

/// Failures of the device end the session; failures of the transport do not.
pub open spec fn disposition_of(failure: Failure) -> Disposition {
    match failure {
        Failure::Device | Failure::Capture => Disposition::Abort,
        Failure::TransportConnect | Failure::TransportSend => Disposition::Continue,
    }
}

/// What the session does about `failure`.
pub fn disposition(failure: Failure) -> (d: Disposition)
    ensures
        d == disposition_of(failure),
{
    match failure {
        Failure::Device => Disposition::Abort,
        Failure::Capture => Disposition::Abort,
        Failure::TransportConnect => Disposition::Continue,
        Failure::TransportSend => Disposition::Continue,
    }
}

} // verus!

//! The first caBLE discovery interface, whose sessions are not implemented.

use vstd::prelude::*;

verus! {

/// The role of a discovery session.
#[derive(Debug, Clone, Copy, PartialEq, Eq, Structural)]
pub enum SessionType {
    /// The initiator (client), which shows the QR code.
    Initiator,
    /// The authenticator, which scans it.
    Authenticator,
}

/// Discovery service singleton.
pub struct Service {}

/// The `nsICableDiscoveryService` singleton; starting a session is not implemented.
pub struct CableDiscoveryService {}

} // verus!

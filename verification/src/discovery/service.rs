//! caBLE discovery service: starts initiator and authenticator sessions.

use crate::discovery::authenticator_session::{session_from_qr_spec, AuthenticatorSession, QrCode};
use crate::discovery::initiator_session::{InitiatorSession, InitiatorSessionView};
use crate::ec::is_compressed_sec1;
use crate::discovery::params::{Params, ParamsView};
use crate::error::{Error, Result};
use vstd::prelude::*;

verus! {

/// The `nsICtapCableDiscoveryService` singleton.
pub struct CtapCableDiscoveryService {}

impl CtapCableDiscoveryService {
    /// Starts an initiator session with `params` (with a random secret), for the identity
    /// key pair whose compressed public key is `local_identity_public`.
    pub fn start_initiator(&self, params: Params, local_identity_public: [u8; 33]) -> (r: Result<
        InitiatorSession,
    >)
        ensures
            !is_compressed_sec1(local_identity_public@) ==> r == Err::<InitiatorSession, Error>(
                Error::InvalidArgument,
            ),
            is_compressed_sec1(local_identity_public@) ==> r is Ok && r->Ok_0.wf() && r->Ok_0@
                == (InitiatorSessionView {
                params: params@,
                local_identity_public: local_identity_public@,
                eid: None,
                websocket_url: Seq::empty(),
                psk: None,
            }),
    {
        InitiatorSession::new_with_params(params, local_identity_public)
    }

    /// Starts an authenticator session from the initiator's QR code, read with
    /// [`AuthenticatorSession::read_qr_url`], once its identity key was imported
    /// (`peer_identity_imported` says whether that succeeded).
    pub fn start_authenticator(&self, qr: QrCode, peer_identity_imported: bool) -> (r: Result<AuthenticatorSession>)
        ensures
            session_from_qr_spec(qr@, peer_identity_imported, r),
    {
        AuthenticatorSession::new_with_qr_url(qr, peer_identity_imported)
    }
}

/// The `nsICtapCableDiscoveryParams` object: discovery parameters with getters and setters.
pub struct CtapCableDiscoveryParams {
    /// The parameters.
    pub inner: Params,
}

impl CtapCableDiscoveryParams {
    /// The number of known tunnel server domains.
    pub fn get_known_domain_count(&self) -> (r: u16)
        ensures
            r == self.inner@.known_domain_count,
    {
        self.inner.known_domain_count()
    }

    /// Sets the number of known tunnel server domains.
    pub fn set_known_domain_count(&mut self, v: u16)
        ensures
            final(self).inner@ == (ParamsView { known_domain_count: v, ..old(self).inner@ }),
    {
        self.inner.set_known_domain_count(v);
    }

    /// The timestamp.
    pub fn get_timestamp(&self) -> (r: u64)
        ensures
            r == self.inner@.timestamp,
    {
        self.inner.timestamp()
    }

    /// Sets the timestamp.
    pub fn set_timestamp(&mut self, v: u64)
        ensures
            final(self).inner@ == (ParamsView { timestamp: v, ..old(self).inner@ }),
    {
        self.inner.set_timestamp(v);
    }

    /// Whether state-assisted transactions are supported.
    pub fn get_supports_state_assisted_transactions(&self) -> (r: bool)
        ensures
            r == self.inner@.supports_state_assisted_transactions,
    {
        self.inner.supports_state_assisted_transactions()
    }

    /// Sets whether state-assisted transactions are supported.
    pub fn set_supports_state_assisted_transactions(&mut self, v: bool)
        ensures
            final(self).inner@ == (ParamsView { supports_state_assisted_transactions: v, ..old(self).inner@ }),
    {
        self.inner.set_supports_state_assisted_transactions(v);
    }

    /// The request type.
    pub fn get_request_type(&self) -> (r: &str)
        ensures
            r@ == self.inner@.request_type,
    {
        self.inner.request_type()
    }

    /// Sets the request type.
    pub fn set_request_type(&mut self, v: String)
        ensures
            final(self).inner@ == (ParamsView { request_type: v@, ..old(self).inner@ }),
    {
        self.inner.set_request_type(v);
    }

    /// Whether WebSockets are supported as a transport channel.
    pub fn get_supports_websocket_transport(&self) -> (r: bool)
        ensures
            r == self.inner@.supports_websocket_transport,
    {
        self.inner.supports_websocket_transport()
    }

    /// Sets whether WebSockets are supported as a transport channel.
    pub fn set_supports_websocket_transport(&mut self, v: bool)
        ensures
            final(self).inner@ == (ParamsView { supports_websocket_transport: v, ..old(self).inner@ }),
    {
        self.inner.set_supports_websocket_transport(v);
    }

    /// Whether BLE L2CAP is supported as a transport channel.
    pub fn get_supports_l2cap_transport(&self) -> (r: bool)
        ensures
            r == self.inner@.supports_l2cap_transport,
    {
        self.inner.supports_l2cap_transport()
    }

    /// Sets whether BLE L2CAP is supported as a transport channel.
    pub fn set_supports_l2cap_transport(&mut self, v: bool)
        ensures
            final(self).inner@ == (ParamsView { supports_l2cap_transport: v, ..old(self).inner@ }),
    {
        self.inner.set_supports_l2cap_transport(v);
    }

    /// The tunnel ID.
    pub fn get_tunnel_id(&self) -> (r: Vec<u8>)
        ensures
            r@ == self.inner@.tunnel_id(),
    {
        crate::bytes::to_vec(self.inner.tunnel_id().as_slice())
    }
}

} // verus!

//! caBLE discovery parameters.

use crate::discovery::{
    eid_key_spec, tunnel_id_spec, EidKey, SharedSecret, TunnelID, KNOWN_TUNNEL_SERVER_DOMAIN_COUNT,
};
use crate::error::{Error, Result};
use vstd::prelude::*;

verus! {

/// The transport channel identifier of WebSockets.
pub const TRANSPORT_WEBSOCKETS: u32 = 0;

/// The transport channel identifier of BLE L2CAP.
pub const TRANSPORT_L2CAP: u32 = 1;

/// The QR code map key of the initiator's compressed public key.
pub const KEY_PUBKEY: i128 = 0;

/// The QR code map key of the shared secret.
pub const KEY_SHARED_SECRET: i128 = 1;

/// The QR code map key of the number of known tunnel server domains.
pub const KEY_KNOWN_DOMAIN_COUNT: i128 = 2;

/// The QR code map key of the timestamp.
pub const KEY_TIMESTAMP: i128 = 3;

/// The QR code map key of the state-assisted transactions flag.
pub const KEY_SUPPORTS_STATE_ASSISTED_TRANSACTIONS: i128 = 4;

/// The QR code map key of the request type.
pub const KEY_REQUEST_TYPE: i128 = 5;

/// The QR code map key of the supported transports.
pub const KEY_SUPPORTED_TRANSPORTS: i128 = 6;

/// caBLE discovery parameters: the QR secret, from which the tunnel ID and the EID keys are
/// derived, and the request parameters that the initiator publishes in its QR code.
#[derive(Clone)]
pub struct Params {
    /// The QR secret.
    shared_secret: SharedSecret,
    /// The number of tunnel server domains that the initiator knows by number.
    known_domain_count: u16,
    /// Whether the initiator supports state-assisted transactions.
    supports_state_assisted_transactions: bool,
    /// The initiator's time, in seconds since the UNIX epoch (0 when unset).
    timestamp: u64,
    /// The request type (`"ga"` or `"mc"`).
    request_type: String,
    /// `true` if the initiator supports WebSockets as a transport channel.
    supports_websocket_transport: bool,
    /// `true` if the initiator supports BLE L2CAP as a transport channel.
    supports_l2cap_transport: bool,
}

/// What a [`Params`] holds. The tunnel ID and the EID keys are not held apart from the
/// secret: they are derived from it.
pub struct ParamsView {
    pub shared_secret: Seq<u8>,
    pub known_domain_count: u16,
    pub supports_state_assisted_transactions: bool,
    pub timestamp: u64,
    pub request_type: Seq<char>,
    pub supports_websocket_transport: bool,
    pub supports_l2cap_transport: bool,
}

impl ParamsView {
    /// The tunnel ID, derived from the QR secret.
    pub open spec fn tunnel_id(self) -> Seq<u8> {
        tunnel_id_spec(self.shared_secret)
    }

    /// The EID encryption key, derived from the QR secret.
    pub open spec fn eid_encryption_key(self) -> Seq<u8> {
        eid_key_spec(self.shared_secret).0
    }

    /// The EID signing key, derived from the QR secret.
    pub open spec fn eid_signing_key(self) -> Seq<u8> {
        eid_key_spec(self.shared_secret).1
    }
}

impl View for Params {
    type V = ParamsView;

    closed spec fn view(&self) -> ParamsView {
        ParamsView {
            shared_secret: self.shared_secret.0@,
            known_domain_count: self.known_domain_count,
            supports_state_assisted_transactions: self.supports_state_assisted_transactions,
            timestamp: self.timestamp,
            request_type: self.request_type@,
            supports_websocket_transport: self.supports_websocket_transport,
            supports_l2cap_transport: self.supports_l2cap_transport,
        }
    }
}

impl Params {
    /// The QR secret.
    pub open spec fn spec_shared_secret(&self) -> Seq<u8> {
        self@.shared_secret
    }

    /// The tunnel ID, derived from the QR secret.
    pub open spec fn spec_tunnel_id(&self) -> Seq<u8> {
        tunnel_id_spec(self@.shared_secret)
    }

    /// The EID encryption key, derived from the QR secret.
    pub open spec fn spec_eid_encryption_key(&self) -> Seq<u8> {
        eid_key_spec(self@.shared_secret).0
    }

    /// The EID signing key, derived from the QR secret.
    pub open spec fn spec_eid_signing_key(&self) -> Seq<u8> {
        eid_key_spec(self@.shared_secret).1
    }

    /// Create new caBLE discovery parameters for an initiator, with the (random) shared
    /// secret `shared_secret` and the initiator's time `timestamp` (seconds since the UNIX
    /// epoch, or 0): the known tunnel server domains, and WebSockets as the transport.
    ///
    /// This is the primary entrypoint for initiators.
    pub fn new(shared_secret: SharedSecret, timestamp: u64) -> (r: Result<Self>)
        ensures
            r is Ok,
            r->Ok_0@ == (ParamsView {
                shared_secret: shared_secret.0@,
                known_domain_count: KNOWN_TUNNEL_SERVER_DOMAIN_COUNT,
                supports_state_assisted_transactions: false,
                timestamp,
                request_type: Seq::empty(),
                supports_websocket_transport: true,
                supports_l2cap_transport: false,
            }),
    {
        let mut o = Self::new_with_shared_secret(shared_secret)?;
        o.known_domain_count = KNOWN_TUNNEL_SERVER_DOMAIN_COUNT;
        o.supports_websocket_transport = true;
        o.timestamp = timestamp;
        Ok(o)
    }

    /// Create new caBLE discovery parameters with a specific shared secret, and no request
    /// parameters set.
    pub fn new_with_shared_secret(shared_secret: SharedSecret) -> (r: Result<Self>)
        ensures
            r is Ok,
            r->Ok_0@ == (ParamsView {
                shared_secret: shared_secret.0@,
                known_domain_count: 0,
                supports_state_assisted_transactions: false,
                timestamp: 0,
                request_type: Seq::empty(),
                supports_websocket_transport: false,
                supports_l2cap_transport: false,
            }),
    {
        Ok(Params {
            shared_secret,
            known_domain_count: 0,
            timestamp: 0,
            supports_state_assisted_transactions: false,
            request_type: String::new(),
            supports_websocket_transport: false,
            supports_l2cap_transport: false,
        })
    }

    /// The tunnel ID, derived from the QR secret.
    pub fn tunnel_id(&self) -> (r: TunnelID)
        ensures
            r.0@ == self.spec_tunnel_id(),
    {
        self.shared_secret.to_tunnel_id()
    }

    /// The QR secret is 16 bytes long.
    pub proof fn lemma_secret_len(&self)
        ensures
            self@.shared_secret.len() == 16,
    {
    }

    /// The QR secret.
    pub fn shared_secret(&self) -> (r: &[u8; 16])
        ensures
            r@ == self.spec_shared_secret(),
    {
        &self.shared_secret.0
    }

    /// The EID keys, derived from the QR secret.
    pub fn eid_key(&self) -> (r: EidKey)
        ensures
            r.encryption_key@ == self.spec_eid_encryption_key(),
            r.signing_key@ == self.spec_eid_signing_key(),
    {
        self.shared_secret.to_eid_key()
    }

    /// The number of tunnel server domains that the initiator knows by number.
    pub fn known_domain_count(&self) -> (r: u16)
        ensures
            r == self@.known_domain_count,
    {
        self.known_domain_count
    }

    /// The initiator's time, in seconds since the UNIX epoch (0 when unset).
    pub fn timestamp(&self) -> (r: u64)
        ensures
            r == self@.timestamp,
    {
        self.timestamp
    }

    /// Whether the initiator supports state-assisted transactions.
    pub fn supports_state_assisted_transactions(&self) -> (r: bool)
        ensures
            r == self@.supports_state_assisted_transactions,
    {
        self.supports_state_assisted_transactions
    }

    /// The request type (`"ga"` or `"mc"`).
    pub fn request_type(&self) -> (r: &str)
        ensures
            r@ == self@.request_type,
    {
        self.request_type.as_str()
    }

    /// `true` if the initiator supports WebSockets as a transport channel.
    pub fn supports_websocket_transport(&self) -> (r: bool)
        ensures
            r == self@.supports_websocket_transport,
    {
        self.supports_websocket_transport
    }

    /// `true` if the initiator supports BLE L2CAP as a transport channel.
    pub fn supports_l2cap_transport(&self) -> (r: bool)
        ensures
            r == self@.supports_l2cap_transport,
    {
        self.supports_l2cap_transport
    }

    /// Returns `true` if this [`Params`] supports the indicated transport channel
    /// identifier.
    ///
    /// Fails with [`Error::InvalidArgument`] for an unknown transport.
    pub fn supports_transport(&self, transport: u32) -> (r: Result<bool>)
        ensures
            transport == TRANSPORT_WEBSOCKETS ==> r == Ok::<bool, Error>(self@.supports_websocket_transport),
            transport == TRANSPORT_L2CAP ==> r == Ok::<bool, Error>(self@.supports_l2cap_transport),
            transport != TRANSPORT_WEBSOCKETS && transport != TRANSPORT_L2CAP ==> r == Err::<bool, Error>(Error::InvalidArgument),
    {
        if transport == TRANSPORT_WEBSOCKETS {
            Ok(self.supports_websocket_transport)
        } else if transport == TRANSPORT_L2CAP {
            Ok(self.supports_l2cap_transport)
        } else {
            Err(Error::InvalidArgument)
        }
    }

    /// Sets the number of known tunnel server domains.
    pub fn set_known_domain_count(&mut self, v: u16)
        ensures
            final(self)@ == (ParamsView { known_domain_count: v, ..old(self)@ }),
    {
        self.known_domain_count = v;
    }

    /// Sets the timestamp.
    pub fn set_timestamp(&mut self, v: u64)
        ensures
            final(self)@ == (ParamsView { timestamp: v, ..old(self)@ }),
    {
        self.timestamp = v;
    }

    /// Sets whether state-assisted transactions are supported.
    pub fn set_supports_state_assisted_transactions(&mut self, v: bool)
        ensures
            final(self)@ == (ParamsView { supports_state_assisted_transactions: v, ..old(self)@ }),
    {
        self.supports_state_assisted_transactions = v;
    }

    /// Sets the request type.
    pub fn set_request_type(&mut self, v: String)
        ensures
            final(self)@ == (ParamsView { request_type: v@, ..old(self)@ }),
    {
        self.request_type = v;
    }

    /// Sets whether WebSockets are supported as a transport channel.
    pub fn set_supports_websocket_transport(&mut self, v: bool)
        ensures
            final(self)@ == (ParamsView { supports_websocket_transport: v, ..old(self)@ }),
    {
        self.supports_websocket_transport = v;
    }

    /// Sets whether BLE L2CAP is supported as a transport channel.
    pub fn set_supports_l2cap_transport(&mut self, v: bool)
        ensures
            final(self)@ == (ParamsView { supports_l2cap_transport: v, ..old(self)@ }),
    {
        self.supports_l2cap_transport = v;
    }
}

} // verus!

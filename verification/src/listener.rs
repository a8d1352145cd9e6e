//! The Gateway's state and admission policy: where to listen, whether to
//! terminate TLS, whether to demand mutual authentication, and the
//! Uplink built from the same configuration. Accepting connections and
//! the TLS handshake happen outside the library; each accepted peer's
//! certificate chain is judged by [`Listener::admit_peer`] before the
//! Uplink engine may run for it.

use vstd::prelude::*;
use vstd::string::StringSliceAdditionalSpecFns;
use vstd::utf8::encode_utf8;

use crate::config::Config;
use crate::fingerprint::authenticate_peer;
use crate::fingerprint::fingerprint_matches;
use crate::fingerprint::fingerprint_spec;
use crate::fingerprint::AuthOutcome;
use crate::uplink::Uplink;

verus! {

/// The server certificate and private key; their presence means the
/// Gateway terminates TLS on each accepted connection.
pub struct GatewayTls {
    pub cert: Vec<u8>,
    pub key: Vec<u8>,
}

/// The client trust anchor and the pinned lowercase-hex fingerprint;
/// their presence means every peer must present a certificate whose
/// digest equals the pin.
pub struct MutualAuth {
    pub ca: Vec<u8>,
    pub fingerprint: String,
}

/// The Gateway's parameters: the listen address, the optional TLS
/// identity, the optional mutual-authentication material, and the
/// Uplink that serves each accepted session.
pub struct Listener {
    pub address: String,
    pub tls: Option<GatewayTls>,
    pub auth: Option<MutualAuth>,
    pub uplink: Uplink,
}

impl Listener {
    /// Takes the Gateway's parameters from the configuration — which
    /// always supplies the TLS identity and the mutual-authentication
    /// material — and builds the Uplink from the same values.
    pub fn new(config: Config) -> (r: Listener)
        ensures
            r.address@ == config.ro_listen_address@,
            r.tls matches Some(t) && t.cert@ == config.ro_cert@ && t.key@ == config.ro_key@,
            r.auth matches Some(a) && a.ca@ == config.auth_ca@ && a.fingerprint@
                == config.auth_fingerprint@,
            r.uplink.server_name@ == config.server_name@,
            r.uplink.sid@ == config.sid@,
            r.uplink.password@ == config.uplink_password@,
            r.uplink.local_address == config.uplink_local_address,
            r.uplink.remote_address@ == config.uplink_remote_address@,
            config.uplink_remote_name matches Some(n) ==> r.uplink.remote_name@ == n@,
            config.uplink_remote_name is None ==> r.uplink.remote_name@
                == config.uplink_remote_address@,
            r.uplink.remote_port == config.uplink_remote_port,
            r.uplink.ca matches Some(c) && c@ == config.uplink_ca@,
    {
        Listener {
            address: config.ro_listen_address.clone(),
            tls: Some(GatewayTls { cert: config.ro_cert.clone(), key: config.ro_key.clone() }),
            auth: Some(
                MutualAuth {
                    ca: config.auth_ca.clone(),
                    fingerprint: config.auth_fingerprint.clone(),
                },
            ),
            uplink: Uplink::new(config),
        }
    }

    /// Decides whether an accepted peer may observe the relay. A
    /// TLS-less Gateway admits every raw connection: the fingerprint
    /// gate presupposes a TLS handshake, so it applies only when both
    /// TLS termination and mutual authentication are configured. Then
    /// the peer must have presented a certificate chain whose leaf
    /// fingerprint equals the pin, exactly as
    /// [`crate::fingerprint::authenticate_peer`] states.
    pub fn admit_peer(&self, peer_certs: &Option<Vec<Vec<u8>>>) -> (r: AuthOutcome)
        ensures
            self.tls is None || self.auth is None ==> r is Accepted,
            self.auth matches Some(a) ==> (self.tls is Some ==> {
                &&& r is Accepted <==> (peer_certs matches Some(cs) && cs@.len() > 0
                    && fingerprint_matches(cs@[0]@, encode_utf8(a.fingerprint@)))
                &&& r is NoPeerCertificate <==> (peer_certs is None || (peer_certs matches Some(
                    cs,
                ) && cs@.len() == 0))
                &&& r matches AuthOutcome::FingerprintMismatch(fp) ==> (peer_certs matches Some(cs)
                    && cs@.len() > 0 && !fingerprint_matches(cs@[0]@, encode_utf8(a.fingerprint@))
                    && fp@ == fingerprint_spec(cs@[0]@))
            }),
    {
        if self.tls.is_none() {
            return AuthOutcome::Accepted;
        }
        match &self.auth {
            None => AuthOutcome::Accepted,
            Some(auth) => authenticate_peer(peer_certs, auth.fingerprint.as_str()),
        }
    }
}

} // verus!

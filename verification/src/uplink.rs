//! The Uplink engine's state: one outbound session's parameters, taken
//! once from the configuration and never mutated. The engine's two
//! decision surfaces — the handshake script and the per-line relay step
//! (see [`crate::handshake`] and [`crate::relay`]) — are driven from
//! these fields; opening the transport and moving bytes happens outside
//! the library.

use vstd::prelude::*;
use vstd::string::StringSliceAdditionalSpecFns;
use vstd::utf8::encode_utf8;

use crate::config::Config;
use crate::handshake::capab_line_spec;
use crate::handshake::handshake_script;
use crate::handshake::pass_line_spec;
use crate::handshake::ping_line_spec;
use crate::handshake::server_line_spec;
use crate::handshake::svinfo_line_spec;

verus! {

/// The parameters of one outbound link session. The trust anchor is the
/// raw certificate bytes; when one is present the transport is TLS with
/// `remote_name` as the verified peer name, and when none is, the raw
/// transport is used unencrypted.
pub struct Uplink {
    pub local_address: Option<String>,
    pub remote_address: String,
    pub remote_name: String,
    pub remote_port: u16,
    pub password: String,
    pub server_name: String,
    pub sid: String,
    pub ca: Option<Vec<u8>>,
}

/// Relies on std::time::SystemTime::now and duration_since: the system
/// clock as whole seconds since the Unix epoch. Nothing is assumed of
/// the value; a clock before the epoch reads as zero.
#[verifier::external_body]
fn clock_seconds() -> u64 {
    match std::time::SystemTime::now().duration_since(std::time::SystemTime::UNIX_EPOCH) {
        Ok(d) => d.as_secs(),
        Err(_) => 0,
    }
}

/// The wall clock in Unix seconds, used once per session as the burst
/// timestamp. The value depends on the machine's clock, so nothing is
/// promised of it; every caller's contract holds for any reading.
pub fn current_time() -> u64 {
    clock_seconds()
}

impl Uplink {
    /// Takes one session's parameters out of the configuration; the
    /// remote name for certificate verification falls back to the
    /// remote address when none is configured.
    pub fn new(config: Config) -> (r: Uplink)
        ensures
            r.local_address == config.uplink_local_address,
            config.uplink_remote_name matches Some(n) ==> r.remote_name@ == n@,
            config.uplink_remote_name is None ==> r.remote_name@ == config.uplink_remote_address@,
            r.remote_address@ == config.uplink_remote_address@,
            r.remote_port == config.uplink_remote_port,
            r.password@ == config.uplink_password@,
            r.server_name@ == config.server_name@,
            r.sid@ == config.sid@,
            r.ca matches Some(c) && c@ == config.uplink_ca@,
    {
        let remote_name = match config.uplink_remote_name {
            Some(n) => n,
            None => config.uplink_remote_address.clone(),
        };
        Uplink {
            local_address: config.uplink_local_address,
            remote_name,
            remote_address: config.uplink_remote_address,
            remote_port: config.uplink_remote_port,
            password: config.uplink_password,
            server_name: config.server_name,
            sid: config.sid,
            ca: Some(config.uplink_ca),
        }
    }

    /// The five lines the engine writes after connecting, in order,
    /// with the current clock reading as the burst timestamp.
    pub fn handshake_lines(&self) -> (r: Vec<Vec<u8>>)
        ensures
            r@.len() == 5,
            r@[0]@ == pass_line_spec(encode_utf8(self.password@), encode_utf8(self.sid@)),
            r@[1]@ == capab_line_spec(),
            r@[2]@ == server_line_spec(encode_utf8(self.server_name@)),
            exists|t: u64| r@[3]@ == svinfo_line_spec(t),
            r@[4]@ == ping_line_spec(encode_utf8(self.sid@)),
    {
        let time = current_time();
        let r = handshake_script(
            self.server_name.as_str(),
            self.sid.as_str(),
            self.password.as_str(),
            time,
        );
        proof {
            assert(r@[3]@ == svinfo_line_spec(time));
        }
        r
    }
}

} // verus!

//! The connection parameters and their grammar: one `key = value` setting
//! per line, the identity rules for the server name and SID, and the
//! assembly of a complete configuration with missing-field reporting.
//!
//! Reading the file and resolving certificate paths is I/O and happens
//! outside the library; each raw line comes in here as bytes, and the
//! collected values go through [`ConfigDraft::finish`] and
//! [`Config::validate`] before any network work may start.

use vstd::prelude::*;
use vstd::string::StringSliceAdditionalSpecFns;
use vstd::utf8::encode_utf8;

use crate::text::is_dec_digit;
use crate::text::trim_range;
use crate::text::trim_spec;

verus! {

/// Why a configuration was rejected.
#[derive(Debug)]
pub enum ConfigError {
    /// The SID is not one digit followed by two uppercase-alphanumeric
    /// characters.
    InvalidSid,
    /// The server name holds a character other than an ASCII letter or
    /// `.`.
    InvalidServerName,
    /// A required setting never appeared; carries the setting's name.
    MissingField(&'static str),
    /// A line assigned to a setting this grammar does not know.
    InvalidField(String),
    /// Reading the file or a referenced path failed.
    IoError(std::io::Error),
    /// A non-blank line without exactly one `=`.
    SyntaxError(String),
}

/// Declares std::io::Error to Verus, opaquely, so that [`ConfigError`]
/// can carry one; the library never looks inside it.
#[verifier::external_type_specification]
#[verifier::external_body]
pub struct ExIoError(std::io::Error);

impl From<std::io::Error> for ConfigError {
    fn from(e: std::io::Error) -> (r: ConfigError) {
        ConfigError::IoError(e)
    }
}

impl vstd::std_specs::convert::FromSpecImpl<std::io::Error> for ConfigError {
    open spec fn obeys_from_spec() -> bool {
        true
    }

    open spec fn from_spec(e: std::io::Error) -> ConfigError {
        ConfigError::IoError(e)
    }
}

/// The settings the grammar knows, one per assignable line.
#[derive(Clone, Copy, Debug, PartialEq, Eq, Structural)]
pub enum ConfigKey {
    ServerName,
    Sid,
    UplinkRemoteAddress,
    UplinkRemoteName,
    UplinkRemotePort,
    UplinkLocalAddress,
    UplinkPassword,
    UplinkCa,
    RoListenAddress,
    RoCert,
    RoKey,
    AuthCa,
    AuthFingerprint,
}

/// The key a trimmed setting name denotes, if any.
pub open spec fn key_for(name: Seq<u8>) -> Option<ConfigKey> {
    if name == "server_name".spec_bytes() {
        Some(ConfigKey::ServerName)
    } else if name == "sid".spec_bytes() {
        Some(ConfigKey::Sid)
    } else if name == "uplink_remote_address".spec_bytes() {
        Some(ConfigKey::UplinkRemoteAddress)
    } else if name == "uplink_remote_name".spec_bytes() {
        Some(ConfigKey::UplinkRemoteName)
    } else if name == "uplink_remote_port".spec_bytes() {
        Some(ConfigKey::UplinkRemotePort)
    } else if name == "uplink_local_address".spec_bytes() {
        Some(ConfigKey::UplinkLocalAddress)
    } else if name == "uplink_password".spec_bytes() {
        Some(ConfigKey::UplinkPassword)
    } else if name == "uplink_ca".spec_bytes() {
        Some(ConfigKey::UplinkCa)
    } else if name == "ro_listen_address".spec_bytes() {
        Some(ConfigKey::RoListenAddress)
    } else if name == "ro_cert".spec_bytes() {
        Some(ConfigKey::RoCert)
    } else if name == "ro_key".spec_bytes() {
        Some(ConfigKey::RoKey)
    } else if name == "auth_ca".spec_bytes() {
        Some(ConfigKey::AuthCa)
    } else if name == "auth_fingerprint".spec_bytes() {
        Some(ConfigKey::AuthFingerprint)
    } else {
        None
    }
}

pub fn classify_key(name: &[u8]) -> (r: Option<ConfigKey>)
    ensures
        r == key_for(name@),
{
    if crate::text::eq_bytes(name, "server_name".as_bytes()) {
        Some(ConfigKey::ServerName)
    } else if crate::text::eq_bytes(name, "sid".as_bytes()) {
        Some(ConfigKey::Sid)
    } else if crate::text::eq_bytes(name, "uplink_remote_address".as_bytes()) {
        Some(ConfigKey::UplinkRemoteAddress)
    } else if crate::text::eq_bytes(name, "uplink_remote_name".as_bytes()) {
        Some(ConfigKey::UplinkRemoteName)
    } else if crate::text::eq_bytes(name, "uplink_remote_port".as_bytes()) {
        Some(ConfigKey::UplinkRemotePort)
    } else if crate::text::eq_bytes(name, "uplink_local_address".as_bytes()) {
        Some(ConfigKey::UplinkLocalAddress)
    } else if crate::text::eq_bytes(name, "uplink_password".as_bytes()) {
        Some(ConfigKey::UplinkPassword)
    } else if crate::text::eq_bytes(name, "uplink_ca".as_bytes()) {
        Some(ConfigKey::UplinkCa)
    } else if crate::text::eq_bytes(name, "ro_listen_address".as_bytes()) {
        Some(ConfigKey::RoListenAddress)
    } else if crate::text::eq_bytes(name, "ro_cert".as_bytes()) {
        Some(ConfigKey::RoCert)
    } else if crate::text::eq_bytes(name, "ro_key".as_bytes()) {
        Some(ConfigKey::RoKey)
    } else if crate::text::eq_bytes(name, "auth_ca".as_bytes()) {
        Some(ConfigKey::AuthCa)
    } else if crate::text::eq_bytes(name, "auth_fingerprint".as_bytes()) {
        Some(ConfigKey::AuthFingerprint)
    } else {
        None
    }
}

/// One reading of a configuration line.
pub enum ParsedLine {
    /// Nothing but whitespace.
    Blank,
    /// `key = value`, with the value trimmed of surrounding whitespace.
    Assign(ConfigKey, Vec<u8>),
}

/// Why a single line was rejected.
pub enum LineError {
    /// Not blank, and not exactly one `=`.
    Syntax,
    /// Exactly one `=`, but the setting name is unknown; carries the
    /// trimmed name.
    UnknownKey(Vec<u8>),
}

/// Position `i` holds the only `=` of the line.
pub open spec fn single_eq_at(s: Seq<u8>, i: int) -> bool {
    &&& 0 <= i < s.len()
    &&& s[i] == 61
    &&& forall|j: int| 0 <= j < s.len() && j != i ==> s[j] != 61
}

pub open spec fn has_single_eq(s: Seq<u8>) -> bool {
    exists|i: int| single_eq_at(s, i)
}

pub open spec fn the_eq_pos(s: Seq<u8>) -> int {
    choose|i: int| single_eq_at(s, i)
}

/// The trimmed setting name of a line with a single `=`.
pub open spec fn line_key(line: Seq<u8>) -> Seq<u8> {
    trim_spec(line.take(the_eq_pos(line)))
}

/// The trimmed value of a line with a single `=`.
pub open spec fn line_value(line: Seq<u8>) -> Seq<u8> {
    trim_spec(line.skip(the_eq_pos(line) + 1))
}

/// Reads one configuration line: blank lines are skipped, any other
/// line must be `key = value` with exactly one `=` and a known key.
pub fn parse_config_line(line: &[u8]) -> (r: Result<ParsedLine, LineError>)
    ensures
        trim_spec(line@).len() == 0 ==> (r matches Ok(p) && p is Blank),
        trim_spec(line@).len() > 0 && !has_single_eq(line@) ==> (r matches Err(e)
            && e is Syntax),
        trim_spec(line@).len() > 0 && has_single_eq(line@) && key_for(line_key(line@)) is None
            ==> (r matches Err(e) && e matches LineError::UnknownKey(k) && k@ == line_key(
            line@,
        )),
        trim_spec(line@).len() > 0 && has_single_eq(line@) && key_for(line_key(line@)) is Some
            ==> (r matches Ok(p) && p matches ParsedLine::Assign(k, v) && Some(k) == key_for(
            line_key(line@),
        ) && v@ == line_value(line@)),
{
    let trimmed = trim_range(line, 0, line.len());
    proof {
        assert(line@.subrange(0, line@.len() as int) =~= line@);
    }
    if trimmed.len() == 0 {
        return Ok(ParsedLine::Blank);
    }
    let mut i: usize = 0;
    let mut eq_pos: usize = 0;
    let mut found = false;
    while i < line.len()
        invariant
            i <= line@.len(),
            trim_spec(line@).len() > 0,
            !found ==> forall|j: int| 0 <= j < i ==> line@[j] != 61,
            found ==> eq_pos < i && line@[eq_pos as int] == 61 && forall|j: int|
                0 <= j < i && j != eq_pos ==> line@[j] != 61,
        decreases line@.len() - i,
    {
        if line[i] == 61 {
            if found {
                proof {
                    assert forall|x: int| !single_eq_at(line@, x) by {
                        if x == eq_pos as int {
                            assert(line@[i as int] == 61);
                        } else {
                            assert(line@[eq_pos as int] == 61);
                        }
                    }
                }
                return Err(LineError::Syntax);
            }
            eq_pos = i;
            found = true;
        }
        i += 1;
    }
    if !found {
        proof {
            assert forall|x: int| !single_eq_at(line@, x) by {
                if 0 <= x < line@.len() {
                    assert(line@[x] != 61);
                }
            }
        }
        return Err(LineError::Syntax);
    }
    proof {
        assert(single_eq_at(line@, eq_pos as int));
        assert(single_eq_at(line@, the_eq_pos(line@)));
        assert(the_eq_pos(line@) == eq_pos as int) by {
            if the_eq_pos(line@) != eq_pos as int {
                assert(line@[eq_pos as int] != 61);
            }
        }
    }
    let key = trim_range(line, 0, eq_pos);
    let value = trim_range(line, eq_pos + 1, line.len());
    proof {
        assert(line@.subrange(0, eq_pos as int) =~= line@.take(the_eq_pos(line@)));
        assert(line@.subrange(eq_pos as int + 1, line@.len() as int) =~= line@.skip(
            the_eq_pos(line@) + 1,
        ));
    }
    match classify_key(key.as_slice()) {
        Some(k) => Ok(ParsedLine::Assign(k, value)),
        None => Err(LineError::UnknownKey(key)),
    }
}

/// The validated connection parameters. Addresses are carried as the
/// text the configuration gave; the process around the library resolves
/// them when it opens sockets. Certificate and key material is raw
/// bytes, already read from the configured paths.
#[derive(Debug)]
pub struct Config {
    pub server_name: String,
    pub sid: String,
    pub uplink_remote_address: String,
    pub uplink_remote_name: Option<String>,
    pub uplink_remote_port: u16,
    pub uplink_local_address: Option<String>,
    pub uplink_password: String,
    pub uplink_ca: Vec<u8>,
    pub ro_listen_address: String,
    pub ro_cert: Vec<u8>,
    pub ro_key: Vec<u8>,
    pub auth_ca: Vec<u8>,
    pub auth_fingerprint: String,
}

/// An SID: one ASCII digit, then two characters each a digit or an
/// uppercase letter.
pub open spec fn valid_sid_bytes(s: Seq<u8>) -> bool {
    &&& s.len() == 3
    &&& is_dec_digit(s[0])
    &&& is_sid_trailing(s[1])
    &&& is_sid_trailing(s[2])
}

pub open spec fn is_sid_trailing(b: u8) -> bool {
    is_dec_digit(b) || (0x41 <= b && b <= 0x5a)
}

/// A server-name byte: an ASCII letter or `.`.
pub open spec fn is_name_byte(b: u8) -> bool {
    (0x41 <= b && b <= 0x5a) || (0x61 <= b && b <= 0x7a) || b == 0x2e
}

pub open spec fn valid_server_name_bytes(s: Seq<u8>) -> bool {
    forall|i: int| 0 <= i < s.len() ==> is_name_byte(s[i])
}

impl Config {
    /// Checks the identity fields once, before any network I/O: the SID
    /// shape first, then the server name's alphabet.
    pub fn validate(self) -> (r: Result<Config, ConfigError>)
        ensures
            r is Ok <==> (valid_sid_bytes(encode_utf8(self.sid@)) && valid_server_name_bytes(
                encode_utf8(self.server_name@),
            )),
            r matches Ok(c) ==> c == self,
            r matches Err(e) ==> ((e is InvalidSid <==> !valid_sid_bytes(encode_utf8(self.sid@)))
                && (e is InvalidSid || e is InvalidServerName)),
    {
        let sid_bytes = self.sid.as_str().as_bytes();
        if sid_bytes.len() != 3 {
            return Err(ConfigError::InvalidSid);
        }
        if sid_bytes[0] < 0x30 || sid_bytes[0] > 0x39 {
            return Err(ConfigError::InvalidSid);
        }
        if !sid_trailing_byte(sid_bytes[1]) || !sid_trailing_byte(sid_bytes[2]) {
            return Err(ConfigError::InvalidSid);
        }
        let name_bytes = self.server_name.as_str().as_bytes();
        let mut i: usize = 0;
        while i < name_bytes.len()
            invariant
                i <= name_bytes@.len(),
                name_bytes@ == encode_utf8(self.server_name@),
                valid_sid_bytes(encode_utf8(self.sid@)),
                forall|j: int| 0 <= j < i ==> is_name_byte(name_bytes@[j]),
            decreases name_bytes@.len() - i,
        {
            let b = name_bytes[i];
            if !((b >= 0x41 && b <= 0x5a) || (b >= 0x61 && b <= 0x7a) || b == 0x2e) {
                proof {
                    assert(!valid_server_name_bytes(encode_utf8(self.server_name@))) by {
                        assert(!is_name_byte(name_bytes@[i as int]));
                    }
                }
                return Err(ConfigError::InvalidServerName);
            }
            i += 1;
        }
        Ok(self)
    }
}

fn sid_trailing_byte(b: u8) -> (r: bool)
    ensures
        r == is_sid_trailing(b),
{
    (b >= 0x30 && b <= 0x39) || (b >= 0x41 && b <= 0x5a)
}

/// The settings gathered so far while reading a configuration,
/// every field optional until [`ConfigDraft::finish`] decides.
pub struct ConfigDraft {
    pub server_name: Option<String>,
    pub sid: Option<String>,
    pub uplink_remote_address: Option<String>,
    pub uplink_remote_name: Option<String>,
    pub uplink_remote_port: Option<u16>,
    pub uplink_local_address: Option<String>,
    pub uplink_password: Option<String>,
    pub uplink_ca: Option<Vec<u8>>,
    pub ro_listen_address: Option<String>,
    pub ro_cert: Option<Vec<u8>>,
    pub ro_key: Option<Vec<u8>>,
    pub auth_ca: Option<Vec<u8>>,
    pub auth_fingerprint: Option<String>,
}

/// The name of the first required setting the draft still lacks, in the
/// order the missing-field errors are reported; empty when none lacks.
pub open spec fn first_missing(d: ConfigDraft) -> Seq<char> {
    if d.server_name is None {
        "server_name"@
    } else if d.sid is None {
        "sid"@
    } else if d.uplink_remote_address is None {
        "uplink_remote_address"@
    } else if d.uplink_remote_port is None {
        "uplink_remote_port"@
    } else if d.uplink_password is None {
        "uplink_password"@
    } else if d.uplink_ca is None {
        "uplink_ca"@
    } else if d.ro_listen_address is None {
        "ro_listen_address"@
    } else if d.ro_cert is None {
        "ro_cert"@
    } else if d.ro_key is None {
        "ro_key"@
    } else if d.auth_ca is None {
        "auth_ca"@
    } else if d.auth_fingerprint is None {
        "auth_fingerprint"@
    } else {
        Seq::empty()
    }
}

/// Every setting a configuration cannot do without.
pub open spec fn draft_complete(d: ConfigDraft) -> bool {
    &&& d.server_name is Some
    &&& d.sid is Some
    &&& d.uplink_remote_address is Some
    &&& d.uplink_remote_port is Some
    &&& d.uplink_password is Some
    &&& d.uplink_ca is Some
    &&& d.ro_listen_address is Some
    &&& d.ro_cert is Some
    &&& d.ro_key is Some
    &&& d.auth_ca is Some
    &&& d.auth_fingerprint is Some
}

impl ConfigDraft {
    /// A draft with nothing set yet.
    pub fn empty() -> (r: ConfigDraft)
        ensures
            r.server_name is None,
            r.sid is None,
            r.uplink_remote_address is None,
            r.uplink_remote_name is None,
            r.uplink_remote_port is None,
            r.uplink_local_address is None,
            r.uplink_password is None,
            r.uplink_ca is None,
            r.ro_listen_address is None,
            r.ro_cert is None,
            r.ro_key is None,
            r.auth_ca is None,
            r.auth_fingerprint is None,
    {
        ConfigDraft {
            server_name: None,
            sid: None,
            uplink_remote_address: None,
            uplink_remote_name: None,
            uplink_remote_port: None,
            uplink_local_address: None,
            uplink_password: None,
            uplink_ca: None,
            ro_listen_address: None,
            ro_cert: None,
            ro_key: None,
            auth_ca: None,
            auth_fingerprint: None,
        }
    }

    /// Settles the draft: a complete draft becomes a configuration with
    /// every value carried over; otherwise the first missing required
    /// setting is reported by name.
    pub fn finish(self) -> (r: Result<Config, ConfigError>)
        ensures
            r is Ok <==> draft_complete(self),
            r matches Ok(c) ==> {
                &&& (self.server_name matches Some(v) && c.server_name == v)
                &&& (self.sid matches Some(v) && c.sid == v)
                &&& (self.uplink_remote_address matches Some(v) && c.uplink_remote_address == v)
                &&& c.uplink_remote_name == self.uplink_remote_name
                &&& (self.uplink_remote_port matches Some(v) && c.uplink_remote_port == v)
                &&& c.uplink_local_address == self.uplink_local_address
                &&& (self.uplink_password matches Some(v) && c.uplink_password == v)
                &&& (self.uplink_ca matches Some(v) && c.uplink_ca == v)
                &&& (self.ro_listen_address matches Some(v) && c.ro_listen_address == v)
                &&& (self.ro_cert matches Some(v) && c.ro_cert == v)
                &&& (self.ro_key matches Some(v) && c.ro_key == v)
                &&& (self.auth_ca matches Some(v) && c.auth_ca == v)
                &&& (self.auth_fingerprint matches Some(v) && c.auth_fingerprint == v)
            },
            r matches Err(e) ==> (e matches ConfigError::MissingField(f) && f@ == first_missing(
                self,
            )),
    {
        let server_name = match self.server_name {
            Some(v) => v,
            None => {
                return Err(ConfigError::MissingField("server_name"));
            },
        };
        let sid = match self.sid {
            Some(v) => v,
            None => {
                return Err(ConfigError::MissingField("sid"));
            },
        };
        let uplink_remote_address = match self.uplink_remote_address {
            Some(v) => v,
            None => {
                return Err(ConfigError::MissingField("uplink_remote_address"));
            },
        };
        let uplink_remote_port = match self.uplink_remote_port {
            Some(v) => v,
            None => {
                return Err(ConfigError::MissingField("uplink_remote_port"));
            },
        };
        let uplink_password = match self.uplink_password {
            Some(v) => v,
            None => {
                return Err(ConfigError::MissingField("uplink_password"));
            },
        };
        let uplink_ca = match self.uplink_ca {
            Some(v) => v,
            None => {
                return Err(ConfigError::MissingField("uplink_ca"));
            },
        };
        let ro_listen_address = match self.ro_listen_address {
            Some(v) => v,
            None => {
                return Err(ConfigError::MissingField("ro_listen_address"));
            },
        };
        let ro_cert = match self.ro_cert {
            Some(v) => v,
            None => {
                return Err(ConfigError::MissingField("ro_cert"));
            },
        };
        let ro_key = match self.ro_key {
            Some(v) => v,
            None => {
                return Err(ConfigError::MissingField("ro_key"));
            },
        };
        let auth_ca = match self.auth_ca {
            Some(v) => v,
            None => {
                return Err(ConfigError::MissingField("auth_ca"));
            },
        };
        let auth_fingerprint = match self.auth_fingerprint {
            Some(v) => v,
            None => {
                return Err(ConfigError::MissingField("auth_fingerprint"));
            },
        };
        Ok(
            Config {
                server_name,
                sid,
                uplink_remote_address,
                uplink_remote_name: self.uplink_remote_name,
                uplink_remote_port,
                uplink_local_address: self.uplink_local_address,
                uplink_password,
                uplink_ca,
                ro_listen_address,
                ro_cert,
                ro_key,
                auth_ca,
                auth_fingerprint,
            },
        )
    }
}

} // verus!

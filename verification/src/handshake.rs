//! The fixed server-link handshake: the four introduction lines and the
//! synthetic self-addressed liveness probe that stands in for an empty
//! burst. Every line is specified byte for byte.

use vstd::prelude::*;
use vstd::string::StringSliceAdditionalSpecFns;

use crate::text::{dec_rep, push_bytes, push_dec};

verus! {

/// The password/introduction line: `PASS <password> TS 6 :<sid>\r\n`.
pub open spec fn pass_line_spec(password: Seq<u8>, sid: Seq<u8>) -> Seq<u8> {
    "PASS ".spec_bytes() + password + " TS 6 :".spec_bytes() + sid + "\r\n".spec_bytes()
}

/// The capability advertisement: one fixed token set.
pub open spec fn capab_line_spec() -> Seq<u8> {
    "CAPAB :BAN CHW CLUSTER ECHO ENCAP EOPMOD EUID EX IE KLN KNOCK MLOCK QS RSFNC SAVE SERVICES TB UNKLN\r\n".spec_bytes()
}

/// The server introduction: `SERVER <server_name> 1 :(H) haematite proxy service\r\n`,
/// with hop count `1` and a fixed description.
pub open spec fn server_line_spec(server_name: Seq<u8>) -> Seq<u8> {
    "SERVER ".spec_bytes() + server_name + " 1 :(H) haematite proxy service\r\n".spec_bytes()
}

/// The state-info line: `SVINFO 6 6 0 :<time>\r\n`, with fixed protocol
/// version bounds and the burst timestamp in decimal.
pub open spec fn svinfo_line_spec(time: u64) -> Seq<u8> {
    "SVINFO 6 6 0 :".spec_bytes() + dec_rep(time as nat) + "\r\n".spec_bytes()
}

/// The synthetic self-addressed probe: `PING :<sid>\r\n`.
pub open spec fn ping_line_spec(sid: Seq<u8>) -> Seq<u8> {
    "PING :".spec_bytes() + sid + "\r\n".spec_bytes()
}

pub fn pass_line(password: &str, sid: &str) -> (r: Vec<u8>)
    ensures
        r@ == pass_line_spec(password.spec_bytes(), sid.spec_bytes()),
{
    let mut r: Vec<u8> = Vec::new();
    push_bytes(&mut r, "PASS ".as_bytes());
    push_bytes(&mut r, password.as_bytes());
    push_bytes(&mut r, " TS 6 :".as_bytes());
    push_bytes(&mut r, sid.as_bytes());
    push_bytes(&mut r, "\r\n".as_bytes());
    proof {
        assert(r@ =~= pass_line_spec(password.spec_bytes(), sid.spec_bytes()));
    }
    r
}

pub fn capab_line() -> (r: Vec<u8>)
    ensures
        r@ == capab_line_spec(),
{
    let mut r: Vec<u8> = Vec::new();
    push_bytes(
        &mut r,
        "CAPAB :BAN CHW CLUSTER ECHO ENCAP EOPMOD EUID EX IE KLN KNOCK MLOCK QS RSFNC SAVE SERVICES TB UNKLN\r\n".as_bytes(),
    );
    proof {
        assert(r@ =~= capab_line_spec());
    }
    r
}

pub fn server_line(server_name: &str) -> (r: Vec<u8>)
    ensures
        r@ == server_line_spec(server_name.spec_bytes()),
{
    let mut r: Vec<u8> = Vec::new();
    push_bytes(&mut r, "SERVER ".as_bytes());
    push_bytes(&mut r, server_name.as_bytes());
    push_bytes(&mut r, " 1 :(H) haematite proxy service\r\n".as_bytes());
    proof {
        assert(r@ =~= server_line_spec(server_name.spec_bytes()));
    }
    r
}

pub fn svinfo_line(time: u64) -> (r: Vec<u8>)
    ensures
        r@ == svinfo_line_spec(time),
{
    let mut r: Vec<u8> = Vec::new();
    push_bytes(&mut r, "SVINFO 6 6 0 :".as_bytes());
    push_dec(&mut r, time);
    push_bytes(&mut r, "\r\n".as_bytes());
    proof {
        assert(r@ =~= svinfo_line_spec(time));
    }
    r
}

pub fn ping_line(sid: &str) -> (r: Vec<u8>)
    ensures
        r@ == ping_line_spec(sid.spec_bytes()),
{
    let mut r: Vec<u8> = Vec::new();
    push_bytes(&mut r, "PING :".as_bytes());
    push_bytes(&mut r, sid.as_bytes());
    push_bytes(&mut r, "\r\n".as_bytes());
    proof {
        assert(r@ =~= ping_line_spec(sid.spec_bytes()));
    }
    r
}

/// The whole handshake, in the order it must be written: the four
/// introduction lines, then the synthetic self-addressed probe.
pub fn handshake_script(server_name: &str, sid: &str, password: &str, time: u64) -> (r: Vec<
    Vec<u8>,
>)
    ensures
        r@.len() == 5,
        r@[0]@ == pass_line_spec(password.spec_bytes(), sid.spec_bytes()),
        r@[1]@ == capab_line_spec(),
        r@[2]@ == server_line_spec(server_name.spec_bytes()),
        r@[3]@ == svinfo_line_spec(time),
        r@[4]@ == ping_line_spec(sid.spec_bytes()),
{
    let mut r: Vec<Vec<u8>> = Vec::new();
    r.push(pass_line(password, sid));
    r.push(capab_line());
    r.push(server_line(server_name));
    r.push(svinfo_line(time));
    r.push(ping_line(sid));
    r
}

} // verus!

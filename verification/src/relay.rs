//! The relay-loop decisions of the Uplink engine: recognising a liveness
//! probe, building the reply, and saying for every event what is written
//! where. Reading and writing the transports happens outside the library;
//! it hands each raw line (or the end of the stream) in as an event and
//! performs exactly the actions returned.

use vstd::prelude::*;
use vstd::string::StringSliceAdditionalSpecFns;

use vstd::utf8::is_ascii_chars;

use crate::text::lemma_ascii_str_bytes;
use crate::text::push_bytes;

verus! {

/// A line is a liveness probe when it is at least seven bytes long and
/// its first six bytes are the literal `PING :`. The length is checked
/// before the prefix, so a short line is never indexed past its end.
pub open spec fn is_ping_spec(line: Seq<u8>) -> bool {
    line.len() >= 7 && line.take(6) == "PING :".spec_bytes()
}

pub fn is_ping(line: &[u8]) -> (r: bool)
    ensures
        r == is_ping_spec(line@),
{
    if line.len() < 7 {
        return false;
    }
    proof {
        reveal_strlit("PING :");
        assert(is_ascii_chars("PING :"@));
        lemma_ascii_str_bytes("PING :");
    }
    let prefix = "PING :".as_bytes();
    let mut i: usize = 0;
    while i < 6
        invariant
            i <= 6,
            line@.len() >= 7,
            prefix@ == "PING :".spec_bytes(),
            prefix@.len() == 6,
            forall|j: int| 0 <= j < i ==> line@[j] == prefix@[j],
        decreases 6 - i,
    {
        if line[i] != prefix[i] {
            proof {
                assert(line@.take(6)[i as int] != prefix@[i as int]);
            }
            return false;
        }
        i += 1;
    }
    proof {
        assert(line@.take(6) =~= prefix@);
    }
    true
}

/// `s` with one trailing line terminator removed: a final `\n` goes, and
/// a final `\r` before it (or on its own) goes too.
pub open spec fn trim_eol_spec(s: Seq<u8>) -> Seq<u8> {
    let t = if s.len() > 0 && s.last() == 10 {
        s.drop_last()
    } else {
        s
    };
    if t.len() > 0 && t.last() == 13 {
        t.drop_last()
    } else {
        t
    }
}

/// The origin token of a probe line: everything after the six-byte
/// prefix, with the trailing line terminator trimmed.
pub open spec fn origin_token(line: Seq<u8>) -> Seq<u8> {
    trim_eol_spec(line.skip(6))
}

/// The reply owed for a probe line:
/// `:<sid> PONG <server_name> :<origin token>\r\n`.
pub open spec fn pong_line_spec(sid: Seq<u8>, server_name: Seq<u8>, line: Seq<u8>) -> Seq<u8> {
    ":".spec_bytes() + sid + " PONG ".spec_bytes() + server_name + " :".spec_bytes()
        + origin_token(line) + "\r\n".spec_bytes()
}

pub fn pong_line(sid: &str, server_name: &str, line: &[u8]) -> (r: Vec<u8>)
    requires
        line@.len() >= 6,
    ensures
        r@ == pong_line_spec(sid.spec_bytes(), server_name.spec_bytes(), line@),
{
    let mut end: usize = line.len();
    if end > 6 && line[end - 1] == 10 {
        end = end - 1;
    }
    if end > 6 && line[end - 1] == 13 {
        end = end - 1;
    }
    proof {
        assert(line@.subrange(6, end as int) =~= origin_token(line@));
    }
    let mut r: Vec<u8> = Vec::new();
    push_bytes(&mut r, ":".as_bytes());
    push_bytes(&mut r, sid.as_bytes());
    push_bytes(&mut r, " PONG ".as_bytes());
    push_bytes(&mut r, server_name.as_bytes());
    push_bytes(&mut r, " :".as_bytes());
    let mut i: usize = 6;
    let ghost mid = r@;
    while i < end
        invariant
            6 <= i <= end,
            end <= line@.len(),
            r@ == mid + line@.subrange(6, i as int),
        decreases end - i,
    {
        r.push(line[i]);
        proof {
            assert(mid + line@.subrange(6, i as int) + seq![line@[i as int]] =~= mid
                + line@.subrange(6, i as int + 1));
        }
        i += 1;
    }
    push_bytes(&mut r, "\r\n".as_bytes());
    proof {
        assert(r@ =~= pong_line_spec(sid.spec_bytes(), server_name.spec_bytes(), line@));
    }
    r
}

/// One event observed on the uplink leg: a raw line (terminator bytes
/// included, as read), a clean end of the stream, or a read failure.
pub enum UplinkEvent {
    Line(Vec<u8>),
    Closed,
    ReadFailed,
}

/// Whether the relay loop goes on after an event.
pub enum SessionStatus {
    Continue,
    Ended,
}

/// What one event obliges: an optional reply on the uplink transport
/// (written first), an optional line for the sink (written second,
/// exactly as received), and whether the session goes on. The end of the
/// stream, clean or not, ends the session normally: nothing further is
/// written on either leg.
pub struct StepActions {
    pub uplink_reply: Option<Vec<u8>>,
    pub forward: Option<Vec<u8>>,
    pub status: SessionStatus,
}

/// Decides the relay loop's response to one uplink event.
///
/// A probe line gets exactly one reply, and every line — probe or not —
/// is forwarded unmodified; a non-probe line gets no reply.
pub fn session_step(sid: &str, server_name: &str, event: UplinkEvent) -> (r: StepActions)
    ensures
        event matches UplinkEvent::Line(l) ==> {
            &&& r.status is Continue
            &&& (r.forward matches Some(f) && f@ == l@)
            &&& (is_ping_spec(l@) ==> (r.uplink_reply matches Some(p) && p@ == pong_line_spec(
                sid.spec_bytes(),
                server_name.spec_bytes(),
                l@,
            )))
            &&& (!is_ping_spec(l@) ==> r.uplink_reply is None)
        },
        !(event is Line) ==> r.status is Ended && r.forward is None && r.uplink_reply is None,
{
    match event {
        UplinkEvent::Line(l) => {
            let reply = if is_ping(l.as_slice()) {
                Some(pong_line(sid, server_name, l.as_slice()))
            } else {
                None
            };
            StepActions { uplink_reply: reply, forward: Some(l), status: SessionStatus::Continue }
        },
        UplinkEvent::Closed => StepActions {
            uplink_reply: None,
            forward: None,
            status: SessionStatus::Ended,
        },
        UplinkEvent::ReadFailed => StepActions {
            uplink_reply: None,
            forward: None,
            status: SessionStatus::Ended,
        },
    }
}

} // verus!

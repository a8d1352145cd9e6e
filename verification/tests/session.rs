use haematite::config::{Config, ConfigDraft};
use haematite::fingerprint::AuthOutcome;
use haematite::listener::Listener;
use haematite::relay::{session_step, SessionStatus, UplinkEvent};
use haematite::uplink::Uplink;
use sha1::Digest;
use sha1::Sha1;

fn test_config() -> Config {
    ConfigDraft {
        server_name: Some("proxy.example.org".to_string()),
        sid: Some("9ZZ".to_string()),
        uplink_remote_address: Some("127.0.0.1".to_string()),
        uplink_remote_name: None,
        uplink_remote_port: Some(6667),
        uplink_local_address: None,
        uplink_password: Some("linkpass".to_string()),
        uplink_ca: Some(vec![]),
        ro_listen_address: Some("127.0.0.1:7000".to_string()),
        ro_cert: Some(vec![]),
        ro_key: Some(vec![]),
        auth_ca: Some(vec![]),
        auth_fingerprint: Some(String::new()),
    }
    .finish()
    .expect("the draft is complete")
    .validate()
    .expect("the identity is valid")
}

#[test]
fn uplink_takes_its_parameters_from_the_config() {
    let uplink = Uplink::new(test_config());
    assert_eq!(uplink.remote_address, "127.0.0.1");
    assert_eq!(uplink.remote_name, "127.0.0.1");
    assert_eq!(uplink.remote_port, 6667);
    assert_eq!(uplink.password, "linkpass");
    assert_eq!(uplink.server_name, "proxy.example.org");
    assert_eq!(uplink.sid, "9ZZ");
}

#[test]
fn uplink_prefers_the_configured_remote_name() {
    let mut config = test_config();
    config.uplink_remote_name = Some("hub.example.org".to_string());
    let uplink = Uplink::new(config);
    assert_eq!(uplink.remote_name, "hub.example.org");
    assert_eq!(uplink.remote_address, "127.0.0.1");
}

#[test]
fn listener_takes_its_parameters_from_the_config() {
    let mut config = test_config();
    config.ro_cert = vec![1, 2];
    config.ro_key = vec![3];
    config.auth_ca = vec![4, 5, 6];
    config.auth_fingerprint = "ab".repeat(20);
    let listener = Listener::new(config);
    assert_eq!(listener.address, "127.0.0.1:7000");
    let tls = listener.tls.as_ref().expect("TLS is configured");
    assert_eq!(tls.cert, vec![1, 2]);
    assert_eq!(tls.key, vec![3]);
    let auth = listener.auth.as_ref().expect("mutual auth is configured");
    assert_eq!(auth.ca, vec![4, 5, 6]);
    assert_eq!(auth.fingerprint, "ab".repeat(20));
    assert_eq!(listener.uplink.sid, "9ZZ");
}

fn plain_listener() -> Listener {
    let mut listener = Listener::new(test_config());
    listener.tls = None;
    listener.auth = None;
    listener.uplink.ca = None;
    listener
}

#[test]
fn a_gateway_without_mutual_auth_admits_any_peer() {
    let listener = plain_listener();
    assert!(matches!(listener.admit_peer(&None), AuthOutcome::Accepted));
    assert!(matches!(
        listener.admit_peer(&Some(vec![b"anything".to_vec()])),
        AuthOutcome::Accepted
    ));
}

#[test]
fn a_tls_less_gateway_has_no_fingerprint_gate() {
    // The fingerprint gate presupposes a TLS handshake: without TLS
    // termination the raw connection is admitted even when
    // mutual-auth material is present in the listener.
    let mut listener = Listener::new(test_config());
    listener.tls = None;
    assert!(matches!(listener.admit_peer(&None), AuthOutcome::Accepted));
}

#[test]
fn a_mutual_auth_gateway_admits_the_matching_certificate() {
    let mut config = test_config();
    let cert = b"the observer's certificate".to_vec();
    config.auth_fingerprint = hex::encode(Sha1::digest(&cert));
    let listener = Listener::new(config);
    assert!(matches!(
        listener.admit_peer(&Some(vec![cert])),
        AuthOutcome::Accepted
    ));
}

#[test]
fn a_mutual_auth_gateway_rejects_a_one_character_difference() {
    let mut config = test_config();
    let cert = b"the observer's certificate".to_vec();
    let mut pin = hex::encode(Sha1::digest(&cert)).into_bytes();
    pin[39] = if pin[39] == b'0' { b'1' } else { b'0' };
    config.auth_fingerprint = String::from_utf8(pin).unwrap();
    let listener = Listener::new(config);
    assert!(matches!(
        listener.admit_peer(&Some(vec![cert])),
        AuthOutcome::FingerprintMismatch(_)
    ));
}

#[test]
fn a_mutual_auth_gateway_applies_the_pin() {
    let listener = Listener::new(test_config());
    // The configured pin is empty, which no digest equals.
    assert!(matches!(
        listener.admit_peer(&None),
        AuthOutcome::NoPeerCertificate
    ));
    assert!(matches!(
        listener.admit_peer(&Some(vec![b"cert".to_vec()])),
        AuthOutcome::FingerprintMismatch(_)
    ));
}

/// One session of a TLS-less Gateway against a pretend uplink: the raw
/// connection is admitted, the handshake goes out in order, a probe
/// from the remote is answered on the uplink leg and still forwarded to
/// the observer, and the remote closing its stream ends the session
/// with nothing more written.
#[test]
fn one_session_against_a_fake_uplink() {
    let listener = plain_listener();
    assert!(matches!(listener.admit_peer(&None), AuthOutcome::Accepted));
    let uplink = &listener.uplink;
    let mut uplink_received: Vec<u8> = Vec::new();
    let mut observer_received: Vec<u8> = Vec::new();

    for line in uplink.handshake_lines() {
        uplink_received.extend_from_slice(&line);
    }
    let sent = String::from_utf8(uplink_received.clone()).unwrap();
    let lines: Vec<&str> = sent.split_inclusive("\r\n").collect();
    assert_eq!(lines.len(), 5);
    assert_eq!(lines[0], "PASS linkpass TS 6 :9ZZ\r\n");
    assert_eq!(
        lines[1],
        "CAPAB :BAN CHW CLUSTER ECHO ENCAP EOPMOD EUID EX IE KLN KNOCK MLOCK QS RSFNC SAVE SERVICES TB UNKLN\r\n"
    );
    assert_eq!(lines[2], "SERVER proxy.example.org 1 :(H) haematite proxy service\r\n");
    assert!(lines[3].starts_with("SVINFO 6 6 0 :"));
    assert!(lines[3].ends_with("\r\n"));
    assert!(lines[3]["SVINFO 6 6 0 :".len()..lines[3].len() - 2]
        .bytes()
        .all(|b| b.is_ascii_digit()));
    assert_eq!(lines[4], "PING :9ZZ\r\n");

    // The fake uplink replies with a probe of its own.
    uplink_received.clear();
    let step = session_step(
        &uplink.sid,
        &uplink.server_name,
        UplinkEvent::Line(b"PING :abc\r\n".to_vec()),
    );
    assert!(matches!(step.status, SessionStatus::Continue));
    if let Some(reply) = step.uplink_reply {
        uplink_received.extend_from_slice(&reply);
    }
    if let Some(forward) = step.forward {
        observer_received.extend_from_slice(&forward);
    }
    assert_eq!(uplink_received, b":9ZZ PONG proxy.example.org :abc\r\n");
    assert_eq!(observer_received, b"PING :abc\r\n");

    // The fake uplink closes its stream: the session ends, nothing
    // further reaches either leg.
    uplink_received.clear();
    observer_received.clear();
    let step = session_step(&uplink.sid, &uplink.server_name, UplinkEvent::Closed);
    assert!(matches!(step.status, SessionStatus::Ended));
    assert!(step.uplink_reply.is_none());
    assert!(step.forward.is_none());
    assert!(uplink_received.is_empty());
    assert!(observer_received.is_empty());
}
